//! The final artifact: a schema, its interface binding, and the script set
//! the schema's validator addresses point into.

use vstd::prelude::*;

use crate::canon::schema_id_of;
use crate::errors::BuildError;
use crate::iface::{IfaceImpl, IfaceImplView};
use crate::isa::{OP_PCCS, OP_PCVS};
use crate::library::{Library, LibraryView};
use crate::maps::{check_rule_keys_within, lemma_same_keys, rule_keys_within};
use crate::schema::{
    bytes32_eq, schema_wf, schema_wired, validator_resolves, views_of, Schema, SchemaView,
};

verus! {

/// A publishable package.
#[derive(Clone, Debug)]
pub struct SchemaPackage {
    /// The contract shape.
    pub schema: Schema,
    /// Its binding to the user-facing interface.
    pub binding: IfaceImpl,
    /// The deduplicated script set: every library any validator address of
    /// the schema references.
    pub libs: Vec<Library>,
}

#[verifier::ext_equal]
pub struct SchemaPackageView {
    pub schema: SchemaView,
    pub binding: IfaceImplView,
    pub libs: Seq<LibraryView>,
}

impl View for SchemaPackage {
    type V = SchemaPackageView;

    open spec fn view(&self) -> SchemaPackageView {
        SchemaPackageView { schema: self.schema@, binding: self.binding@, libs: views_of(self.libs@) }
    }
}

/// No two libraries of the set share an identity: content addressing lets a
/// host store one copy per distinct instruction stream.
pub open spec fn libs_distinct(libs: Seq<LibraryView>) -> bool {
    forall|i: int, j: int| 0 <= i < j < libs.len()
        ==> (#[trigger] libs[i]).id != (#[trigger] libs[j]).id
}

/// The binding's name maps reference only ids the schema declares.
pub open spec fn binding_bound_to(b: IfaceImplView, s: SchemaView) -> bool {
    &&& rule_keys_within(b.global_state, s.global_types)
    &&& rule_keys_within(b.assignments, s.owned_types)
    &&& rule_keys_within(b.transitions, s.transitions)
}

/// Well-formedness of a package: the schema is structurally sound, every
/// validator address resolves in the script set to the required opcode, the
/// binding belongs to this very schema and names only its ids, and the
/// script set is deduplicated.
pub open spec fn package_wf(p: SchemaPackageView) -> bool {
    &&& schema_wf(p.schema)
    &&& schema_wired(p.schema, p.libs)
    &&& p.binding.schema_id == schema_id_of(p.schema)
    &&& binding_bound_to(p.binding, p.schema)
    &&& libs_distinct(p.libs)
}

/// Exec check of [`libs_distinct`].
fn check_libs_distinct(libs: &Vec<Library>) -> (r: bool)
    ensures
        r == libs_distinct(views_of(libs@)),
{
    let n = libs.len();
    let mut i: usize = 0;
    while i < n
        invariant
            i <= n,
            n == libs@.len(),
            forall|p: int, q: int| 0 <= p < q < n && p < i
                ==> (#[trigger] views_of(libs@)[p]).id != (#[trigger] views_of(libs@)[q]).id,
        decreases n - i,
    {
        let mut j: usize = i + 1;
        while j < n
            invariant
                i < j <= n,
                n == libs@.len(),
                forall|q: int| i < q < j
                    ==> views_of(libs@)[i as int].id != (#[trigger] views_of(libs@)[q]).id,
            decreases n - j,
        {
            proof {
                assert(views_of(libs@)[i as int] == libs@[i as int]@);
                assert(views_of(libs@)[j as int] == libs@[j as int]@);
            }
            if bytes32_eq(&libs[i].id, &libs[j].id) {
                assert(!libs_distinct(views_of(libs@)));
                return false;
            }
            j += 1;
        }
        i += 1;
    }
    true
}

/// Assembles the package, accepting exactly the well-formed combinations
/// (see [`package_wf`]). On failure the error names the first defect found.
pub fn build_package(schema: Schema, binding: IfaceImpl, libs: Vec<Library>) -> (r: Result<
    SchemaPackage,
    BuildError,
>)
    ensures
        r is Ok <==> package_wf(
            SchemaPackageView { schema: schema@, binding: binding@, libs: views_of(libs@) },
        ),
        r matches Ok(p) ==> p@.schema == schema@ && p@.binding == binding@ && p@.libs == views_of(
            libs@,
        ),
        r == Err::<SchemaPackage, BuildError>(BuildError::ForeignSchema) ==> binding@.schema_id
            != schema_id_of(schema@),
        r == Err::<SchemaPackage, BuildError>(BuildError::UnknownBindingId) ==> !binding_bound_to(
            binding@,
            schema@,
        ),
        r == Err::<SchemaPackage, BuildError>(BuildError::RepeatedLibrary) ==> !libs_distinct(
            views_of(libs@),
        ),
        r == Err::<SchemaPackage, BuildError>(BuildError::ValidatorMismatch) ==> !schema_wired(
            schema@,
            views_of(libs@),
        ),
        (r == Err::<SchemaPackage, BuildError>(BuildError::DuplicateSlotId) || r == Err::<
            SchemaPackage,
            BuildError,
        >(BuildError::DanglingSlotRef)) ==> !schema_wf(schema@),
{
    match schema.validate() {
        Ok(_) => {}
        Err(e) => {
            return Err(e);
        }
    }
    match schema.check_wiring(&libs) {
        Ok(_) => {}
        Err(e) => {
            return Err(e);
        }
    }
    let sid = schema.schema_id();
    if !bytes32_eq(&binding.schema_id, &sid) {
        return Err(BuildError::ForeignSchema);
    }
    proof {
        lemma_same_keys(schema.transitions@, schema@.transitions);
        lemma_same_keys(schema.global_types@, schema@.global_types);
        crate::maps::lemma_same_slot_tables(
            binding.transitions@,
            schema.transitions@,
            schema@.transitions,
        );
        crate::maps::lemma_same_slot_tables(
            binding.global_state@,
            schema.global_types@,
            schema@.global_types,
        );
        crate::maps::lemma_same_rule_keys(
            binding.global_state@,
            binding@.global_state,
            schema@.global_types,
        );
        crate::maps::lemma_same_rule_keys(
            binding.assignments@,
            binding@.assignments,
            schema@.owned_types,
        );
        crate::maps::lemma_same_rule_keys(
            binding.transitions@,
            binding@.transitions,
            schema@.transitions,
        );
    }
    if !check_rule_keys_within(&binding.global_state, &schema.global_types) {
        return Err(BuildError::UnknownBindingId);
    }
    if !check_rule_keys_within(&binding.assignments, &schema.owned_types) {
        return Err(BuildError::UnknownBindingId);
    }
    if !check_rule_keys_within(&binding.transitions, &schema.transitions) {
        return Err(BuildError::UnknownBindingId);
    }
    if !check_libs_distinct(&libs) {
        return Err(BuildError::RepeatedLibrary);
    }
    Ok(SchemaPackage { schema, binding, libs })
}

/// The cross-referencing invariant of a packaged schema, stated on its own:
/// every validator address resolves to an offset inside a library that is
/// present in the package's script set, and the opcode at that exact offset
/// is the opcode the referencing operation requires — the commitment-sum
/// consistency check for genesis, the commitment-sum conservation check for
/// every transition kind.
pub proof fn lemma_validators_resolve(p: SchemaPackageView)
    requires
        package_wf(p),
    ensures
        p.schema.genesis.validator matches Some(v) ==> validator_resolves(v, p.libs, OP_PCCS),
        forall|i: int| 0 <= i < p.schema.transitions.len()
            ==> ((#[trigger] p.schema.transitions[i]).1.validator matches Some(v)
                ==> validator_resolves(v, p.libs, OP_PCVS)),
{
}

} // verus!
