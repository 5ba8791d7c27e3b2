//! The store: resolves each entry of a decoded module's function section
//! against the type section, pairs it with the code-section body of the
//! same index, expands the run-length local declarations, and owns the
//! resulting function instances.

use vstd::prelude::*;

use crate::binary::instruction::Instruction;
use crate::binary::module::{Module, ModuleModel};
use crate::binary::section::FunctionModel;
use crate::binary::types::{FuncType, FuncTypeModel, FunctionLocal, ValueType};

verus! {

/// Why a decoded module could not be instantiated.
#[derive(Debug, Clone, Copy, PartialEq, Eq, Structural)]
pub enum InstantiationError {
    /// A function had to be resolved but the module has no type section.
    MissingTypeSection,
    /// A function-section entry points past the end of the type section.
    TypeIndexOutOfRange,
}

/// A resolved function body: the flattened local types, in declaration
/// order, and the instruction sequence.
#[derive(Debug, Clone)]
pub struct Func {
    pub locals: Vec<ValueType>,
    pub body: Vec<Instruction>,
}

/// The mathematical model of a `Func`.
#[verifier::ext_equal]
pub struct FuncModel {
    pub locals: Seq<ValueType>,
    pub body: Seq<Instruction>,
}

impl View for Func {
    type V = FuncModel;

    open spec fn view(&self) -> FuncModel {
        FuncModel { locals: self.locals@, body: self.body@ }
    }
}

/// A module-defined function instance: its resolved signature and its
/// resolved body. Built once at instantiation and immutable thereafter.
#[derive(Debug, Clone)]
pub struct InternalFuncInst {
    pub func_type: FuncType,
    pub code: Func,
}

/// The mathematical model of an `InternalFuncInst`.
#[verifier::ext_equal]
pub struct InternalFuncInstModel {
    pub func_type: FuncTypeModel,
    pub code: FuncModel,
}

impl View for InternalFuncInst {
    type V = InternalFuncInstModel;

    open spec fn view(&self) -> InternalFuncInstModel {
        InternalFuncInstModel { func_type: self.func_type@, code: self.code@ }
    }
}

/// A function instance: for now always module-defined; imported host
/// functions are reserved for the future.
#[derive(Debug, Clone)]
pub enum FuncInst {
    Internal(InternalFuncInst),
}

/// The mathematical model of a `FuncInst`.
pub enum FuncInstModel {
    Internal(InternalFuncInstModel),
}

impl View for FuncInst {
    type V = FuncInstModel;

    open spec fn view(&self) -> FuncInstModel {
        match self {
            FuncInst::Internal(f) => FuncInstModel::Internal(f@),
        }
    }
}

/// The models of a sequence of function instances, in order.
pub open spec fn func_insts_view(v: Seq<FuncInst>) -> Seq<FuncInstModel> {
    v.map_values(|f: FuncInst| f@)
}

/// The store of one module instance: its function instances, indexed by
/// function index.
#[derive(Debug)]
pub struct Store {
    pub funcs: Vec<FuncInst>,
}

/// The mathematical model of a `Store`.
#[verifier::ext_equal]
pub struct StoreModel {
    pub funcs: Seq<FuncInstModel>,
}

impl View for Store {
    type V = StoreModel;

    open spec fn view(&self) -> StoreModel {
        StoreModel { funcs: func_insts_view(self.funcs@) }
    }
}

impl Default for Store {
    /// A store with no function instances.
    fn default() -> (r: Store)
        ensures
            r@.funcs.len() == 0,
    {
        let r = Store { funcs: Vec::new() };
        proof {
            assert(func_insts_view(r.funcs@) =~= Seq::<FuncInstModel>::empty());
        }
        r
    }
}

/// The flat, order-preserving expansion of run-length local declarations:
/// each group contributes `type_count` slots of its value type, groups in
/// declaration order. Order is load-bearing: instructions reference locals
/// positionally.
pub open spec fn expand_locals(locals: Seq<FunctionLocal>) -> Seq<ValueType>
    decreases locals.len(),
{
    if locals.len() == 0 {
        Seq::<ValueType>::empty()
    } else {
        Seq::new(locals[0].type_count as nat, |j: int| locals[0].value_type) + expand_locals(
            locals.drop_first(),
        )
    }
}

/// The function instance built from a signature and a decoded body.
pub open spec fn spec_func_inst(t: FuncTypeModel, body: FunctionModel) -> FuncInstModel {
    FuncInstModel::Internal(
        InternalFuncInstModel {
            func_type: t,
            code: FuncModel { locals: expand_locals(body.locals), body: body.code },
        },
    )
}

/// What resolving type indices against `types` and pairing them with
/// `bodies`, index-aligned and stopping at the shorter of the two, yields:
/// the instances in order, or the first out-of-range index error.
pub open spec fn spec_func_insts(
    types: Seq<FuncTypeModel>,
    idxs: Seq<u32>,
    bodies: Seq<FunctionModel>,
) -> Result<Seq<FuncInstModel>, InstantiationError>
    decreases idxs.len(),
{
    if idxs.len() == 0 || bodies.len() == 0 {
        Ok(Seq::<FuncInstModel>::empty())
    } else if idxs[0] >= types.len() {
        Err(InstantiationError::TypeIndexOutOfRange)
    } else {
        match spec_func_insts(types, idxs.drop_first(), bodies.drop_first()) {
            Ok(rest) => Ok(seq![spec_func_inst(types[idxs[0] as int], bodies[0])] + rest),
            Err(e) => Err(e),
        }
    }
}

/// What instantiating a module yields. An absent function section or an
/// absent code section contributes nothing to pair, so the store is empty;
/// when there are pairs to resolve, a missing type section is an error.
pub open spec fn spec_instantiate(m: ModuleModel) -> Result<
    Seq<FuncInstModel>,
    InstantiationError,
> {
    let idxs = match m.function_section {
        Some(i) => i,
        None => Seq::<u32>::empty(),
    };
    let types = match m.type_section {
        Some(t) => t,
        None => Seq::<FuncTypeModel>::empty(),
    };
    match m.code_section {
        None => Ok(Seq::<FuncInstModel>::empty()),
        Some(bodies) => if idxs.len() > 0 && bodies.len() > 0 && m.type_section is None {
            Err(InstantiationError::MissingTypeSection)
        } else {
            spec_func_insts(types, idxs, bodies)
        },
    }
}

/// Resolving index-aligned sections never fails and pairs entry `i` of the
/// function section with entry `i` of the code section.
proof fn lemma_func_insts_aligned(
    types: Seq<FuncTypeModel>,
    idxs: Seq<u32>,
    bodies: Seq<FunctionModel>,
)
    requires
        idxs.len() == bodies.len(),
        forall|i: int| 0 <= i < idxs.len() ==> (idxs[i] as int) < types.len(),
    ensures
        ({
            let r = spec_func_insts(types, idxs, bodies);
            r matches Ok(insts) && insts.len() == idxs.len() && (forall|i: int|
                0 <= i < idxs.len() ==> insts[i] == spec_func_inst(
                    types[idxs[i] as int],
                    bodies[i],
                ))
        }),
    decreases idxs.len(),
{
    if idxs.len() > 0 {
        assert(forall|i: int|
            0 <= i < idxs.drop_first().len() ==> (idxs.drop_first()[i] as int) < types.len());
        lemma_func_insts_aligned(types, idxs.drop_first(), bodies.drop_first());
        let rest = spec_func_insts(types, idxs.drop_first(), bodies.drop_first())->Ok_0;
        let insts = seq![spec_func_inst(types[idxs[0] as int], bodies[0])] + rest;
        assert(spec_func_insts(types, idxs, bodies) == Ok::<
            Seq<FuncInstModel>,
            InstantiationError,
        >(insts));
        assert forall|i: int| 0 <= i < idxs.len() implies insts[i] == spec_func_inst(
            types[idxs[i] as int],
            bodies[i],
        ) by {
            if i > 0 {
                assert(insts[i] == rest[i - 1]);
                assert(idxs.drop_first()[i - 1] == idxs[i]);
                assert(bodies.drop_first()[i - 1] == bodies[i]);
            }
        }
    }
}

/// The invariant that entry `i` of the function section and entry `i` of
/// the code section describe the same function: on a module whose two
/// sections are present with equal lengths and whose type indices are in
/// range, instantiation succeeds with exactly one instance per entry,
/// instance `i` resolving type index `i` against the type section and
/// taking body `i` from the code section. The decoder itself does not
/// reject a stream whose two sections declare different counts, so the
/// equal-length premise is stated, as the format guarantees it of a valid
/// module.
pub proof fn lemma_instantiate_aligned(m: ModuleModel)
    requires
        m.function_section is Some,
        m.type_section is Some,
        m.code_section is Some,
        m.function_section->Some_0.len() == m.code_section->Some_0.len(),
        forall|i: int|
            0 <= i < m.function_section->Some_0.len() ==> (m.function_section->Some_0[i] as int)
                < m.type_section->Some_0.len(),
    ensures
        ({
            let r = spec_instantiate(m);
            r matches Ok(insts) && insts.len() == m.function_section->Some_0.len() && (forall|
                i: int,
            |
                0 <= i < insts.len() ==> insts[i] == spec_func_inst(
                    m.type_section->Some_0[m.function_section->Some_0[i] as int],
                    m.code_section->Some_0[i],
                ))
        }),
{
    lemma_func_insts_aligned(
        m.type_section->Some_0,
        m.function_section->Some_0,
        m.code_section->Some_0,
    );
}

/// Instantiating a module whose function section is `[0]`, whose type
/// section is `[t]`, and whose code section is `[f]` yields exactly one
/// internal instance: signature `t`, body `f.code`, and `f.locals`
/// expanded in declaration order.
pub proof fn lemma_instantiate_single(m: ModuleModel, t: FuncTypeModel, f: FunctionModel)
    requires
        m.function_section == Some(seq![0u32]),
        m.type_section == Some(seq![t]),
        m.code_section == Some(seq![f]),
    ensures
        spec_instantiate(m) == Ok::<Seq<FuncInstModel>, InstantiationError>(
            seq![spec_func_inst(t, f)],
        ),
{
    let idxs = seq![0u32];
    let bodies = seq![f];
    assert(spec_func_insts(seq![t], idxs.drop_first(), bodies.drop_first()) == Ok::<
        Seq<FuncInstModel>,
        InstantiationError,
    >(Seq::<FuncInstModel>::empty()));
    assert(seq![spec_func_inst(t, f)] + Seq::<FuncInstModel>::empty() =~= seq![
        spec_func_inst(t, f),
    ]);
}

/// Instantiating a module that lacks a function section yields an empty
/// store, whatever its other sections hold.
pub proof fn lemma_instantiate_no_function_section(m: ModuleModel)
    requires
        m.function_section is None,
    ensures
        spec_instantiate(m) == Ok::<Seq<FuncInstModel>, InstantiationError>(
            Seq::<FuncInstModel>::empty(),
        ),
{
}

/// Copies a vector of plain values.
fn copy_vec<T: Copy>(v: &Vec<T>) -> (r: Vec<T>)
    ensures
        r@ == v@,
{
    let mut r: Vec<T> = Vec::new();
    let mut i: usize = 0;
    while i < v.len()
        invariant
            i <= v@.len(),
            r@ == v@.subrange(0, i as int),
        decreases v@.len() - i,
    {
        proof {
            assert(v@.subrange(0, i + 1 as int) =~= v@.subrange(0, i as int).push(v@[i as int]));
        }
        r.push(v[i]);
        i = i + 1;
    }
    proof {
        assert(v@.subrange(0, v@.len() as int) =~= v@);
    }
    r
}

/// Pushes `count` copies of one value type.
fn push_copies(acc: &mut Vec<ValueType>, count: u32, vt: ValueType)
    ensures
        final(acc)@ == old(acc)@ + Seq::new(count as nat, |j: int| vt),
{
    let mut j: u32 = 0;
    while j < count
        invariant
            j <= count,
            acc@ == old(acc)@ + Seq::new(j as nat, |k: int| vt),
        decreases count - j,
    {
        proof {
            assert(old(acc)@ + Seq::new((j + 1) as nat, |k: int| vt) =~= (old(acc)@ + Seq::new(
                j as nat,
                |k: int| vt,
            )).push(vt));
        }
        acc.push(vt);
        j = j + 1;
    }
}

/// Expands run-length local declarations into the flat local-type list,
/// exactly as `expand_locals` says.
fn expand(locals: &Vec<FunctionLocal>) -> (r: Vec<ValueType>)
    ensures
        r@ == expand_locals(locals@),
{
    let mut acc: Vec<ValueType> = Vec::new();
    let mut i: usize = 0;
    proof {
        assert(locals@.skip(0) =~= locals@);
        assert(acc@ + expand_locals(locals@) =~= expand_locals(locals@));
    }
    while i < locals.len()
        invariant
            i <= locals@.len(),
            expand_locals(locals@) == acc@ + expand_locals(locals@.skip(i as int)),
        decreases locals@.len() - i,
    {
        let local: FunctionLocal = locals[i];
        proof {
            assert(locals@.skip(i as int).drop_first() =~= locals@.skip(i + 1 as int));
            assert(locals@.skip(i as int)[0] == locals@[i as int]);
            assert(acc@ + (Seq::new(local.type_count as nat, |j: int| local.value_type)
                + expand_locals(locals@.skip(i + 1 as int))) =~= (acc@ + Seq::new(
                local.type_count as nat,
                |j: int| local.value_type,
            )) + expand_locals(locals@.skip(i + 1 as int)));
        }
        push_copies(&mut acc, local.type_count, local.value_type);
        i = i + 1;
    }
    proof {
        assert(locals@.skip(locals@.len() as int) =~= Seq::<FunctionLocal>::empty());
        assert(acc@ + Seq::<ValueType>::empty() =~= acc@);
    }
    acc
}

impl Store {
    /// Instantiates a decoded module, returning exactly what
    /// `spec_instantiate` says for its model: the store whose function
    /// instances pair entry `i` of the function section with entry `i` of
    /// the code section, or the first resolution error.
    pub fn new(module: Module) -> (r: Result<Store, InstantiationError>)
        ensures
            match r {
                Ok(st) => spec_instantiate(module@) == Ok::<
                    Seq<FuncInstModel>,
                    InstantiationError,
                >(st@.funcs),
                Err(e) => spec_instantiate(module@) == Err::<
                    Seq<FuncInstModel>,
                    InstantiationError,
                >(e),
            },
    {
        let mut funcs: Vec<FuncInst> = Vec::new();
        let bodies: &Vec<crate::binary::section::Function> = match &module.code_section {
            Some(b) => b,
            None => {
                proof {
                    assert(func_insts_view(funcs@) =~= Seq::<FuncInstModel>::empty());
                }
                return Ok(Store { funcs });
            },
        };
        let idxs: &Vec<u32> = match &module.function_section {
            Some(i) => i,
            None => {
                proof {
                    assert(func_insts_view(funcs@) =~= Seq::<FuncInstModel>::empty());
                }
                return Ok(Store { funcs });
            },
        };
        let n: usize = if idxs.len() < bodies.len() {
            idxs.len()
        } else {
            bodies.len()
        };
        let types: &Vec<FuncType> = match &module.type_section {
            Some(t) => t,
            None => {
                if n > 0 {
                    return Err(InstantiationError::MissingTypeSection);
                }
                proof {
                    assert(func_insts_view(funcs@) =~= Seq::<FuncInstModel>::empty());
                }
                return Ok(Store { funcs });
            },
        };
        let ghost types_m = crate::binary::module::func_types_view(types@);
        let ghost idxs_m = idxs@;
        let ghost bodies_m = crate::binary::module::functions_view(bodies@);
        let mut i: usize = 0;
        proof {
            assert(idxs_m.skip(0) =~= idxs_m);
            assert(bodies_m.skip(0) =~= bodies_m);
            assert(func_insts_view(funcs@) =~= Seq::<FuncInstModel>::empty());
            match spec_func_insts(types_m, idxs_m, bodies_m) {
                Ok(rest) => {
                    assert(func_insts_view(funcs@) + rest =~= rest);
                },
                Err(_) => {},
            }
        }
        while i < n
            invariant
                i <= n,
                n == if idxs_m.len() < bodies_m.len() {
                    idxs_m.len()
                } else {
                    bodies_m.len()
                },
                idxs_m == idxs@,
                types_m == crate::binary::module::func_types_view(types@),
                bodies_m == crate::binary::module::functions_view(bodies@),
                module@.function_section == Some(idxs_m),
                module@.type_section == Some(types_m),
                module@.code_section == Some(bodies_m),
                spec_func_insts(types_m, idxs_m, bodies_m) == (match spec_func_insts(
                    types_m,
                    idxs_m.skip(i as int),
                    bodies_m.skip(i as int),
                ) {
                    Ok(rest) => Ok::<Seq<FuncInstModel>, InstantiationError>(
                        func_insts_view(funcs@) + rest,
                    ),
                    Err(e) => Err::<Seq<FuncInstModel>, InstantiationError>(e),
                }),
            decreases n - i,
        {
            let type_idx: u32 = idxs[i];
            if type_idx as usize >= types.len() {
                proof {
                    assert(idxs_m.skip(i as int)[0] == idxs_m[i as int]);
                    assert(types_m.len() == types@.len());
                    assert(idxs_m.skip(i as int).len() > 0);
                    assert(bodies_m.skip(i as int).len() > 0);
                    assert(spec_func_insts(
                        types_m,
                        idxs_m.skip(i as int),
                        bodies_m.skip(i as int),
                    ) == Err::<Seq<FuncInstModel>, InstantiationError>(
                        InstantiationError::TypeIndexOutOfRange,
                    ));
                }
                return Err(InstantiationError::TypeIndexOutOfRange);
            }
            let ft: &FuncType = &types[type_idx as usize];
            let func_type = FuncType {
                params: copy_vec(&ft.params),
                results: copy_vec(&ft.results),
            };
            let body: &crate::binary::section::Function = &bodies[i];
            let inst = FuncInst::Internal(
                InternalFuncInst {
                    func_type,
                    code: Func { locals: expand(&body.locals), body: copy_vec(&body.code) },
                },
            );
            proof {
                assert(idxs_m.skip(i as int)[0] == idxs_m[i as int]);
                assert(bodies_m.skip(i as int)[0] == bodies_m[i as int]);
                assert(idxs_m.skip(i as int).drop_first() =~= idxs_m.skip(i + 1 as int));
                assert(bodies_m.skip(i as int).drop_first() =~= bodies_m.skip(i + 1 as int));
                assert(inst@ == spec_func_inst(types_m[idxs_m[i as int] as int], bodies_m[i as int]));
                assert(func_insts_view(funcs@.push(inst)) =~= func_insts_view(funcs@).push(inst@));
                match spec_func_insts(types_m, idxs_m.skip(i + 1 as int), bodies_m.skip(i + 1 as int)) {
                    Ok(rest) => {
                        assert(func_insts_view(funcs@) + (seq![inst@] + rest) =~= func_insts_view(
                            funcs@,
                        ).push(inst@) + rest);
                    },
                    Err(_) => {},
                }
            }
            funcs.push(inst);
            i = i + 1;
        }
        proof {
            if idxs_m.len() < bodies_m.len() {
                assert(idxs_m.skip(n as int).len() == 0);
            } else {
                assert(bodies_m.skip(n as int).len() == 0);
            }
            assert(func_insts_view(funcs@) + Seq::<FuncInstModel>::empty() =~= func_insts_view(
                funcs@,
            ));
        }
        Ok(Store { funcs })
    }
}

} // verus!
