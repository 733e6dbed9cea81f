//! The Non-Inflatable Asset (NIA) contract family: a fungible asset whose
//! whole supply is issued at genesis and only moved, never inflated, by
//! transfers.
//!
//! The module fixes the family's configuration — slot ids, the range-bound
//! and family-selector operands of the two commitment checks, and the
//! subroutine entry offsets — and builds the family's artifacts: the
//! validation library, the schema wired to its entry points, the binding to
//! a fungible-asset interface, and the publishable package.

use vstd::prelude::*;

use amplify::ByteArray;

use crate::errors::BuildError;
use crate::iface::{
    bind_interface, binding_names_covered, now_unix_timestamp, IfaceDescriptor,
    IfaceImpl, BINDING_VERSION,
};
use crate::isa::{spec_assemble, spec_encode, Instr, OP_PCCS, OP_PCVS};
use crate::library::{assemble_library, lib_id_of, rgb_isa_seg, Library, LibraryView};
use crate::canon::schema_id_of;
use crate::package::{build_package, package_wf, SchemaPackage};
use crate::schema::{
    schema_wf, schema_wired, GenesisRule, GlobalSlot, GlobalSlotView, GenesisRuleView,
    Occurrences, OwnedSlotKind, Schema, SchemaView, TransitionRule, TransitionRuleView,
    ValidatorAddr, ValidatorAddrView,
};

verus! {

/// Global slot id of the asset specification (ticker, name, precision).
pub const GS_NOMINAL: u16 = 2000;

/// Global slot id of the contract terms.
pub const GS_TERMS: u16 = 2001;

/// Global slot id of the total issued supply.
pub const GS_ISSUED_SUPPLY: u16 = 2002;

/// Owned slot id of the asset amount assignment.
pub const OS_ASSET: u16 = 4000;

/// Transition kind id of the transfer operation.
pub const TS_TRANSFER: u16 = 10000;

/// Upper range-bound operand of the genesis commitment check. Together with
/// the lower bound it fixes the provable amount range of the underlying
/// proof system; both are explicit configuration of this contract family.
pub const GENESIS_BOUND_HI: u16 = 4000;

/// Lower range-bound operand of the genesis commitment check.
pub const GENESIS_BOUND_LO: u16 = 2000;

/// Commitment-family selector operand of the transfer conservation check.
pub const TRANSFER_FAMILY: u16 = 4000;

/// Entry offset of the genesis validation subroutine.
pub const FN_GENESIS_OFFSET: u16 = 0;

/// Entry offset of the transfer validation subroutine: right behind the
/// genesis subroutine's terminating return.
pub const FN_TRANSFER_OFFSET: u16 = 6;

/// Identity of the author of this contract family's artifacts.
pub open spec fn nia_developer() -> Seq<char> {
    "ssi:anonymous@lnp-bp.org"@
}

/// The instruction sequence of the NIA validation library: the genesis
/// commitment-sum check and its return, then the transfer conservation
/// check.
pub open spec fn nia_instr_seq() -> Seq<Instr> {
    seq![
        Instr::Pccs(GENESIS_BOUND_HI, GENESIS_BOUND_LO),
        Instr::Ret,
        Instr::Pcvs(TRANSFER_FAMILY),
    ]
}

/// Identity of the NIA validation library.
pub open spec fn nia_lib_id() -> Seq<u8> {
    lib_id_of(rgb_isa_seg(), spec_assemble(nia_instr_seq()))
}

/// The assembled NIA byte stream holds the genesis check's opcode at the
/// genesis offset and the transfer check's opcode at the transfer offset:
/// the offset table and the instruction stream agree.
pub proof fn lemma_nia_code()
    ensures
        spec_assemble(nia_instr_seq()).len() == 9,
        spec_assemble(nia_instr_seq())[FN_GENESIS_OFFSET as int] == OP_PCCS,
        spec_assemble(nia_instr_seq())[FN_TRANSFER_OFFSET as int] == OP_PCVS,
        FN_GENESIS_OFFSET == 0,
        FN_TRANSFER_OFFSET == spec_encode(nia_instr_seq()[0]).len() + spec_encode(
            nia_instr_seq()[1],
        ).len(),
{
    let s = nia_instr_seq();
    let e0 = spec_encode(s[0]);
    let e1 = spec_encode(s[1]);
    let e2 = spec_encode(s[2]);
    let s1 = s.drop_first();
    let s2 = s1.drop_first();
    let s3 = s2.drop_first();
    assert(s1 =~= seq![Instr::Ret, Instr::Pcvs(TRANSFER_FAMILY)]);
    assert(s2 =~= seq![Instr::Pcvs(TRANSFER_FAMILY)]);
    assert(s3 =~= Seq::<Instr>::empty());
    assert(s.first() == s[0]);
    assert(s1.first() == s[1]);
    assert(s2.first() == s[2]);
    assert(spec_assemble(s3) == Seq::<u8>::empty());
    assert(spec_assemble(s2) == e2 + spec_assemble(s3));
    assert(spec_assemble(s1) == e1 + spec_assemble(s2));
    assert(spec_assemble(s) == e0 + spec_assemble(s1));
    assert(e0.len() == 5);
    assert(e1.len() == 1);
    assert(e2.len() == 3);
    assert(spec_assemble(s).len() == 9);
    assert(e0[0] == OP_PCCS);
    assert(e2[0] == OP_PCVS);
    assert(spec_assemble(s)[0] == OP_PCCS);
    assert(spec_assemble(s)[6] == OP_PCVS);
}

/// Exec form of the NIA instruction sequence.
pub fn nia_instructions() -> (r: Vec<Instr>)
    ensures
        r@ == nia_instr_seq(),
{
    let mut v: Vec<Instr> = Vec::new();
    v.push(Instr::Pccs(GENESIS_BOUND_HI, GENESIS_BOUND_LO));
    v.push(Instr::Ret);
    v.push(Instr::Pcvs(TRANSFER_FAMILY));
    assert(v@ =~= nia_instr_seq());
    v
}

/// Assembles the NIA validation library. The nine-byte stream always fits
/// the code segment, so assembly cannot fail; the entry points are checked
/// against the stream at build time.
pub fn nia_lib() -> (r: Library)
    ensures
        r@.wf(),
        r@.isa == rgb_isa_seg(),
        r@.code == spec_assemble(nia_instr_seq()),
        r@.id == nia_lib_id(),
        r@.code.len() == 9,
        r@.code[FN_GENESIS_OFFSET as int] == OP_PCCS,
        r@.code[FN_TRANSFER_OFFSET as int] == OP_PCVS,
{
    proof {
        lemma_nia_code();
    }
    let instrs = nia_instructions();
    match assemble_library("ALU BPDIGEST RGB", &instrs) {
        Ok(l) => l,
        Err(_) => vstd::pervasive::unreached(),
    }
}

#[verifier::external_type_specification]
#[verifier::external_body]
pub struct ExTypeSystem(strict_types::TypeSystem);

/// Relies on rgbstd's `StandardTypes::type_system`: hands out the strict
/// type system that the schema's semantic ids refer into, an opaque outside
/// value carried through for publication alongside the schema.
#[verifier::external_body]
fn standard_type_system() -> strict_types::TypeSystem {
    rgbstd::stl::StandardTypes::new().type_system()
}

/// What the standard type system returns for a type name: the 32-byte
/// semantic identity of the named type, a pure lookup in a fixed, published
/// type library.
pub uninterp spec fn sem_id_of(name: Seq<char>) -> Seq<u8>;

/// Relies on rgbstd's `StandardTypes::get`: resolves a name of the standard
/// RGB contract type library to its semantic id. The library is fixed, so
/// the result depends on the name alone. The lookup panics on names outside
/// the library; the three names used here are in it.
#[verifier::external_body]
fn standard_sem_id(name: &'static str) -> (r: [u8; 32])
    requires
        name@ == "RGBContract.DivisibleAssetSpec"@ || name@ == "RGBContract.RicardianContract"@
            || name@ == "RGBContract.Amount"@,
    ensures
        r@ == sem_id_of(name@),
{
    rgbstd::stl::StandardTypes::new().get(name).to_byte_array()
}

/// The NIA schema's full declared content, as a function of the family's
/// configuration, the published type ids, and the validation library's
/// identity alone.
pub open spec fn nia_schema_view() -> SchemaView {
    SchemaView {
        name: "NonInflatableAsset"@,
        developer: nia_developer(),
        global_types: seq![
            (
                GS_NOMINAL,
                GlobalSlotView {
                    sem_id: sem_id_of("RGBContract.DivisibleAssetSpec"@),
                    occ: Occurrences::Once,
                },
            ),
            (
                GS_TERMS,
                GlobalSlotView {
                    sem_id: sem_id_of("RGBContract.RicardianContract"@),
                    occ: Occurrences::Once,
                },
            ),
            (
                GS_ISSUED_SUPPLY,
                GlobalSlotView { sem_id: sem_id_of("RGBContract.Amount"@), occ: Occurrences::Once },
            ),
        ],
        owned_types: seq![(OS_ASSET, OwnedSlotKind::FungibleUnsigned64)],
        genesis: GenesisRuleView {
            globals: seq![
                (GS_NOMINAL, Occurrences::Once),
                (GS_TERMS, Occurrences::Once),
                (GS_ISSUED_SUPPLY, Occurrences::Once),
            ],
            assignments: seq![(OS_ASSET, Occurrences::OnceOrMore)],
            validator: Some(
                ValidatorAddrView { lib: nia_lib_id(), offset: FN_GENESIS_OFFSET },
            ),
        },
        transitions: seq![
            (
                TS_TRANSFER,
                TransitionRuleView {
                    inputs: seq![(OS_ASSET, Occurrences::OnceOrMore)],
                    assignments: seq![(OS_ASSET, Occurrences::OnceOrMore)],
                    validator: Some(
                        ValidatorAddrView { lib: nia_lib_id(), offset: FN_TRANSFER_OFFSET },
                    ),
                },
            ),
        ],
    }
}

/// The NIA schema is structurally well-formed: all slot tables strictly
/// ascending, and every slot a rule mentions declared.
pub proof fn lemma_nia_schema_wf()
    ensures
        schema_wf(nia_schema_view()),
{
    let v = nia_schema_view();
    assert(crate::maps::map_contains_key(v.global_types, GS_NOMINAL)) by {
        assert(v.global_types[0].0 == GS_NOMINAL);
    }
    assert(crate::maps::map_contains_key(v.global_types, GS_TERMS)) by {
        assert(v.global_types[1].0 == GS_TERMS);
    }
    assert(crate::maps::map_contains_key(v.global_types, GS_ISSUED_SUPPLY)) by {
        assert(v.global_types[2].0 == GS_ISSUED_SUPPLY);
    }
    assert(crate::maps::map_contains_key(v.owned_types, OS_ASSET)) by {
        assert(v.owned_types[0].0 == OS_ASSET);
    }
    assert forall|i: int| 0 <= i < v.genesis.globals.len() implies #[trigger]
        crate::maps::map_contains_key(v.global_types, v.genesis.globals[i].0) by {
        assert(v.genesis.globals[i].0 == GS_NOMINAL || v.genesis.globals[i].0 == GS_TERMS
            || v.genesis.globals[i].0 == GS_ISSUED_SUPPLY);
    }
    assert forall|i: int| 0 <= i < v.genesis.assignments.len() implies #[trigger]
        crate::maps::map_contains_key(v.owned_types, v.genesis.assignments[i].0) by {
        assert(v.genesis.assignments[i].0 == OS_ASSET);
    }
    assert forall|i: int| 0 <= i < v.transitions.len() implies crate::maps::rule_keys_within(
        (#[trigger] v.transitions[i]).1.inputs,
        v.owned_types,
    ) && crate::maps::rule_keys_within(v.transitions[i].1.assignments, v.owned_types) by {
        assert(v.transitions[i].1.inputs[0].0 == OS_ASSET);
        assert(v.transitions[i].1.assignments[0].0 == OS_ASSET);
    }
}

/// Builds the NIA schema, wired to the validation library's entry points.
/// Construction re-checks its own consistency — the slot tables, the
/// slot-reference closure, and that the opcode at each validator offset is
/// the one the operation requires — and every failure path is proven
/// unreachable.
pub fn nia_schema() -> (r: Schema)
    ensures
        r@ == nia_schema_view(),
        schema_wf(r@),
{
    let lib = nia_lib();

    let sem_spec = standard_sem_id("RGBContract.DivisibleAssetSpec");
    let sem_terms = standard_sem_id("RGBContract.RicardianContract");
    let sem_amount = standard_sem_id("RGBContract.Amount");

    let mut global_types: Vec<(u16, GlobalSlot)> = Vec::new();
    global_types.push((GS_NOMINAL, GlobalSlot { sem_id: sem_spec, occ: Occurrences::Once }));
    global_types.push((GS_TERMS, GlobalSlot { sem_id: sem_terms, occ: Occurrences::Once }));
    global_types.push(
        (GS_ISSUED_SUPPLY, GlobalSlot { sem_id: sem_amount, occ: Occurrences::Once }),
    );

    let mut owned_types: Vec<(u16, OwnedSlotKind)> = Vec::new();
    owned_types.push((OS_ASSET, OwnedSlotKind::FungibleUnsigned64));

    let mut gen_globals: Vec<(u16, Occurrences)> = Vec::new();
    gen_globals.push((GS_NOMINAL, Occurrences::Once));
    gen_globals.push((GS_TERMS, Occurrences::Once));
    gen_globals.push((GS_ISSUED_SUPPLY, Occurrences::Once));

    let mut gen_assignments: Vec<(u16, Occurrences)> = Vec::new();
    gen_assignments.push((OS_ASSET, Occurrences::OnceOrMore));

    let mut tr_inputs: Vec<(u16, Occurrences)> = Vec::new();
    tr_inputs.push((OS_ASSET, Occurrences::OnceOrMore));
    let mut tr_assignments: Vec<(u16, Occurrences)> = Vec::new();
    tr_assignments.push((OS_ASSET, Occurrences::OnceOrMore));

    let mut transitions: Vec<(u16, TransitionRule)> = Vec::new();
    transitions.push(
        (
            TS_TRANSFER,
            TransitionRule {
                inputs: tr_inputs,
                assignments: tr_assignments,
                validator: Some(ValidatorAddr { lib: lib.id, offset: FN_TRANSFER_OFFSET }),
            },
        ),
    );

    let schema = Schema {
        name: "NonInflatableAsset".to_owned(),
        developer: "ssi:anonymous@lnp-bp.org".to_owned(),
        global_types,
        owned_types,
        genesis: GenesisRule {
            globals: gen_globals,
            assignments: gen_assignments,
            validator: Some(ValidatorAddr { lib: lib.id, offset: FN_GENESIS_OFFSET }),
        },
        transitions,
    };
    proof {
        assert(schema@.global_types =~= nia_schema_view().global_types);
        assert(schema@.transitions =~= nia_schema_view().transitions);
        assert(schema@ =~= nia_schema_view());
        lemma_nia_schema_wf();
    }

    match schema.validate() {
        Ok(_) => {}
        Err(_) => {
            return vstd::pervasive::unreached();
        }
    }
    schema
}

/// The NIA schema's validator wiring resolves in its own script set: the
/// genesis address points at the commitment-sum consistency opcode, the
/// transfer address at the conservation opcode.
pub proof fn lemma_nia_schema_wired(libs: Seq<LibraryView>)
    requires
        libs.len() == 1,
        libs[0].isa == rgb_isa_seg(),
        libs[0].code == spec_assemble(nia_instr_seq()),
        libs[0].id == nia_lib_id(),
    ensures
        schema_wired(nia_schema_view(), libs),
{
    lemma_nia_code();
    let v = nia_schema_view();
    assert(crate::schema::resolves_in(
        v.genesis.validator->Some_0,
        libs[0],
        OP_PCCS,
    ));
    assert forall|i: int| 0 <= i < v.transitions.len() implies ((#[trigger]
    v.transitions[i]).1.validator matches Some(w) ==> crate::schema::validator_resolves(
        w,
        libs,
        OP_PCVS,
    )) by {
        assert(crate::schema::resolves_in(
            v.transitions[0].1.validator->Some_0,
            libs[0],
            OP_PCVS,
        ));
    }
}

/// The script set of the NIA family: the one validation library.
pub fn nia_scripts() -> (r: Vec<Library>)
    ensures
        crate::schema::views_of(r@) =~= seq![
            LibraryView {
                isa: rgb_isa_seg(),
                code: spec_assemble(nia_instr_seq()),
                id: nia_lib_id(),
            },
        ],
{
    let lib = nia_lib();
    let mut v: Vec<Library> = Vec::new();
    v.push(lib);
    v
}

/// The (internal id, external name) pairs binding the NIA schema's global
/// slots to the fungible-asset interface.
pub open spec fn nia_global_pairs() -> Seq<(u16, Seq<char>)> {
    seq![(GS_NOMINAL, "spec"@), (GS_TERMS, "terms"@), (GS_ISSUED_SUPPLY, "issuedSupply"@)]
}

/// The pair binding the NIA schema's owned slot.
pub open spec fn nia_assignment_pairs() -> Seq<(u16, Seq<char>)> {
    seq![(OS_ASSET, "assetOwner"@)]
}

/// The pair binding the NIA schema's transfer transition.
pub open spec fn nia_transition_pairs() -> Seq<(u16, Seq<char>)> {
    seq![(TS_TRANSFER, "transfer"@)]
}

/// Binds the NIA schema to the given fungible-asset interface descriptor,
/// stamping the moment of the call. Succeeds exactly when the interface's
/// expected names are all covered by the family's fixed name maps; the ids
/// those maps use always exist in the schema.
pub fn nia_rgb20(iface: &IfaceDescriptor) -> (r: Result<IfaceImpl, BuildError>)
    ensures
        r is Ok <==> binding_names_covered(
            iface@,
            nia_global_pairs(),
            nia_assignment_pairs(),
            nia_transition_pairs(),
        ),
        r is Err ==> r == Err::<IfaceImpl, BuildError>(BuildError::MissingInterfaceField),
        r matches Ok(b) ==> b@.version == BINDING_VERSION && b@.schema_id == schema_id_of(
            nia_schema_view(),
        ) && b@.iface_id == iface@.iface_id && b@.developer == nia_developer()
            && b@.global_state == nia_global_pairs() && b@.assignments == nia_assignment_pairs()
            && b@.transitions == nia_transition_pairs(),
{
    let schema = nia_schema();

    let mut globals: Vec<(u16, String)> = Vec::new();
    globals.push((GS_NOMINAL, "spec".to_owned()));
    globals.push((GS_TERMS, "terms".to_owned()));
    globals.push((GS_ISSUED_SUPPLY, "issuedSupply".to_owned()));
    let mut assignments: Vec<(u16, String)> = Vec::new();
    assignments.push((OS_ASSET, "assetOwner".to_owned()));
    let mut transitions: Vec<(u16, String)> = Vec::new();
    transitions.push((TS_TRANSFER, "transfer".to_owned()));

    proof {
        assert(crate::iface::pairs_view(globals@) =~= nia_global_pairs());
        assert(crate::iface::pairs_view(assignments@) =~= nia_assignment_pairs());
        assert(crate::iface::pairs_view(transitions@) =~= nia_transition_pairs());
        lemma_nia_schema_wf();
        let v = nia_schema_view();
        assert(crate::maps::map_contains_key(v.global_types, GS_NOMINAL)) by {
            assert(v.global_types[0].0 == GS_NOMINAL);
        }
        assert(crate::maps::map_contains_key(v.global_types, GS_TERMS)) by {
            assert(v.global_types[1].0 == GS_TERMS);
        }
        assert(crate::maps::map_contains_key(v.global_types, GS_ISSUED_SUPPLY)) by {
            assert(v.global_types[2].0 == GS_ISSUED_SUPPLY);
        }
        assert(crate::maps::map_contains_key(v.owned_types, OS_ASSET)) by {
            assert(v.owned_types[0].0 == OS_ASSET);
        }
        assert(crate::maps::map_contains_key(v.transitions, TS_TRANSFER)) by {
            assert(v.transitions[0].0 == TS_TRANSFER);
        }
        assert(crate::iface::binding_ids_bound(
            nia_global_pairs(),
            nia_assignment_pairs(),
            nia_transition_pairs(),
            v,
        ));
    }

    let ts = now_unix_timestamp();
    match bind_interface(&schema, iface, globals, assignments, transitions, ts) {
        Ok(b) => Ok(b),
        Err(BuildError::MissingInterfaceField) => Err(BuildError::MissingInterfaceField),
        Err(_) => vstd::pervasive::unreached(),
    }
}

/// The NIA genesis rule declares the issued supply faithfully as "exactly
/// once": the rule maps the supply slot to [`Occurrences::Once`], and that
/// constraint admits multiplicity one while rejecting zero and two (or any
/// other count) alike. A genesis carrying zero or two values for the slot
/// therefore contradicts the declared constraint; enforcement against
/// actual state is the business of a higher validation layer.
pub proof fn lemma_nia_issued_supply_once(n: nat)
    ensures
        crate::maps::map_get(nia_schema_view().genesis.globals, GS_ISSUED_SUPPLY) == Some(
            Occurrences::Once,
        ),
        Occurrences::Once.allows(n) <==> n == 1,
{
    let g = nia_schema_view().genesis.globals;
    let g1 = g.drop_first();
    let g2 = g1.drop_first();
    assert(g1 =~= seq![(GS_TERMS, Occurrences::Once), (GS_ISSUED_SUPPLY, Occurrences::Once)]);
    assert(g2 =~= seq![(GS_ISSUED_SUPPLY, Occurrences::Once)]);
    assert(crate::maps::map_get(g2, GS_ISSUED_SUPPLY) == Some(Occurrences::Once));
    assert(crate::maps::map_get(g1, GS_ISSUED_SUPPLY) == Some(Occurrences::Once));
    assert(crate::maps::map_get(g, GS_ISSUED_SUPPLY) == Some(Occurrences::Once));
}

/// The Non-Inflatable Asset contract family, as one issuer value: its
/// schema, its interface binding and its script set.
pub struct NonInflatableAsset;

impl NonInflatableAsset {
    /// The family's schema.
    pub fn schema() -> (r: Schema)
        ensures
            r@ == nia_schema_view(),
            schema_wf(r@),
    {
        nia_schema()
    }

    /// The family's binding of that schema to a fungible-asset interface:
    /// the binding builder's result in full, the timestamp excepted (the
    /// clock stamps it).
    pub fn issue_impl(iface: &IfaceDescriptor) -> (r: Result<IfaceImpl, BuildError>)
        ensures
            r is Ok <==> binding_names_covered(
                iface@,
                nia_global_pairs(),
                nia_assignment_pairs(),
                nia_transition_pairs(),
            ),
            r is Err ==> r == Err::<IfaceImpl, BuildError>(BuildError::MissingInterfaceField),
            r matches Ok(b) ==> b@.version == BINDING_VERSION && b@.schema_id == schema_id_of(
                nia_schema_view(),
            ) && b@.iface_id == iface@.iface_id && b@.developer == nia_developer()
                && b@.global_state == nia_global_pairs() && b@.assignments
                == nia_assignment_pairs() && b@.transitions == nia_transition_pairs(),
    {
        nia_rgb20(iface)
    }

    /// The strict type system the schema's field types live in. The value
    /// is opaque here: the schema itself stores only the 32-byte semantic
    /// ids that point into it.
    pub fn types() -> strict_types::TypeSystem {
        standard_type_system()
    }

    /// The deduplicated script set every validator address of the schema
    /// points into.
    pub fn scripts() -> (r: Vec<Library>)
        ensures
            crate::schema::views_of(r@) =~= seq![
                LibraryView {
                    isa: rgb_isa_seg(),
                    code: spec_assemble(nia_instr_seq()),
                    id: nia_lib_id(),
                },
            ],
    {
        nia_scripts()
    }

    /// The full publishable package: schema, binding and script set,
    /// assembled and proven well-formed. Fails exactly when the interface
    /// descriptor expects a field name the family does not provide.
    pub fn package(iface: &IfaceDescriptor) -> (r: Result<SchemaPackage, BuildError>)
        ensures
            r is Ok <==> binding_names_covered(
                iface@,
                nia_global_pairs(),
                nia_assignment_pairs(),
                nia_transition_pairs(),
            ),
            r matches Ok(p) ==> package_wf(p@) && p@.schema == nia_schema_view() && p@.libs
                == seq![
                LibraryView {
                    isa: rgb_isa_seg(),
                    code: spec_assemble(nia_instr_seq()),
                    id: nia_lib_id(),
                },
            ] && p@.binding.version == BINDING_VERSION && p@.binding.schema_id == schema_id_of(
                nia_schema_view(),
            ) && p@.binding.iface_id == iface@.iface_id && p@.binding.developer == nia_developer()
                && p@.binding.global_state == nia_global_pairs() && p@.binding.assignments
                == nia_assignment_pairs() && p@.binding.transitions == nia_transition_pairs(),
    {
        let schema = nia_schema();
        let binding = match nia_rgb20(iface) {
            Ok(b) => b,
            Err(e) => {
                return Err(e);
            }
        };
        let libs = nia_scripts();
        proof {
            lemma_nia_schema_wf();
            lemma_nia_schema_wired(crate::schema::views_of(libs@));
            let v = nia_schema_view();
            assert(crate::maps::map_contains_key(v.global_types, GS_NOMINAL)) by {
                assert(v.global_types[0].0 == GS_NOMINAL);
            }
            assert(crate::maps::map_contains_key(v.global_types, GS_TERMS)) by {
                assert(v.global_types[1].0 == GS_TERMS);
            }
            assert(crate::maps::map_contains_key(v.global_types, GS_ISSUED_SUPPLY)) by {
                assert(v.global_types[2].0 == GS_ISSUED_SUPPLY);
            }
            assert(crate::maps::map_contains_key(v.owned_types, OS_ASSET)) by {
                assert(v.owned_types[0].0 == OS_ASSET);
            }
            assert(crate::maps::map_contains_key(v.transitions, TS_TRANSFER)) by {
                assert(v.transitions[0].0 == TS_TRANSFER);
            }
        }
        match build_package(schema, binding, libs) {
            Ok(p) => Ok(p),
            Err(_) => vstd::pervasive::unreached(),
        }
    }
}

} // verus!
