//! Binding a schema to an abstract interface.
//!
//! An interface descriptor names the external fields a generic asset
//! interface expects, per category: contract-level (global) fields, owned
//! (assignment) fields, and transition kinds. A binding translates the
//! schema's internal ids into those external names, version-stamps the
//! result and records when it was made. The binding's timestamp is
//! descriptive metadata only: schema identity stays content-pure, and
//! callers must not expect bindings themselves to be content-addressed.

use vstd::prelude::*;

use crate::errors::BuildError;
use crate::maps::{check_rule_keys_within, rule_keys_within};
use crate::schema::Schema;
use crate::canon::schema_id_of;

verus! {

/// Version tag of the binding layout produced here.
pub const BINDING_VERSION: u8 = 1;

/// Relies on chrono's `Utc::now`: the number of non-leap seconds since the
/// Unix epoch at the moment of the call. The clock decides the value, so
/// nothing is promised of it.
#[verifier::external_body]
pub(crate) fn now_unix_timestamp() -> i64 {
    chrono::Utc::now().timestamp()
}

/// An abstract interface descriptor: the identity of the interface and the
/// external field names it expects, by category.
#[derive(Clone, Debug)]
pub struct IfaceDescriptor {
    /// Identity of the interface, as its authors published it.
    pub iface_id: [u8; 32],
    /// External names of the expected contract-level fields.
    pub globals: Vec<String>,
    /// External names of the expected owned-state fields.
    pub assignments: Vec<String>,
    /// External names of the expected transition kinds.
    pub transitions: Vec<String>,
}

#[verifier::ext_equal]
pub struct IfaceDescriptorView {
    pub iface_id: Seq<u8>,
    pub globals: Seq<Seq<char>>,
    pub assignments: Seq<Seq<char>>,
    pub transitions: Seq<Seq<char>>,
}

impl View for IfaceDescriptor {
    type V = IfaceDescriptorView;

    open spec fn view(&self) -> IfaceDescriptorView {
        IfaceDescriptorView {
            iface_id: self.iface_id@,
            globals: self.globals@.map_values(|s: String| s@),
            assignments: self.assignments@.map_values(|s: String| s@),
            transitions: self.transitions@.map_values(|s: String| s@),
        }
    }
}

/// An implementation binding: which internal id of the schema carries each
/// external field name of the interface.
#[derive(Clone, Debug)]
pub struct IfaceImpl {
    /// Layout version of the binding.
    pub version: u8,
    /// Identity of the bound schema.
    pub schema_id: [u8; 32],
    /// Identity of the implemented interface.
    pub iface_id: [u8; 32],
    /// When the binding was made, in Unix seconds. Descriptive only.
    pub timestamp: i64,
    /// Identity of the binding's author.
    pub developer: String,
    /// Global slot id, external field name.
    pub global_state: Vec<(u16, String)>,
    /// Owned slot id, external field name.
    pub assignments: Vec<(u16, String)>,
    /// Transition kind id, external name.
    pub transitions: Vec<(u16, String)>,
}

#[verifier::ext_equal]
pub struct IfaceImplView {
    pub version: u8,
    pub schema_id: Seq<u8>,
    pub iface_id: Seq<u8>,
    pub timestamp: i64,
    pub developer: Seq<char>,
    pub global_state: Seq<(u16, Seq<char>)>,
    pub assignments: Seq<(u16, Seq<char>)>,
    pub transitions: Seq<(u16, Seq<char>)>,
}

/// View of a list of (internal id, external name) pairs.
pub open spec fn pairs_view(p: Seq<(u16, String)>) -> Seq<(u16, Seq<char>)> {
    p.map_values(|q: (u16, String)| (q.0, q.1@))
}

impl View for IfaceImpl {
    type V = IfaceImplView;

    open spec fn view(&self) -> IfaceImplView {
        IfaceImplView {
            version: self.version,
            schema_id: self.schema_id@,
            iface_id: self.iface_id@,
            timestamp: self.timestamp,
            developer: self.developer@,
            global_state: pairs_view(self.global_state@),
            assignments: pairs_view(self.assignments@),
            transitions: pairs_view(self.transitions@),
        }
    }
}

/// Some pair carries the external name.
pub open spec fn name_found(pairs: Seq<(u16, Seq<char>)>, name: Seq<char>) -> bool {
    exists|j: int| 0 <= j < pairs.len() && (#[trigger] pairs[j]).1 == name
}

/// Every external name in `required` is carried by some pair.
pub open spec fn names_covered(required: Seq<Seq<char>>, pairs: Seq<(u16, Seq<char>)>) -> bool {
    forall|i: int| 0 <= i < required.len() ==> #[trigger] name_found(pairs, required[i])
}

/// Exec equality of two texts.
pub fn str_eq(a: &str, b: &str) -> (r: bool)
    ensures
        r == (a@ == b@),
{
    let an = a.unicode_len();
    let bn = b.unicode_len();
    if an != bn {
        return false;
    }
    let mut i: usize = 0;
    while i < an
        invariant
            i <= an,
            an == a@.len(),
            an == b@.len(),
            forall|p: int| 0 <= p < i ==> a@[p] == b@[p],
        decreases an - i,
    {
        if a.get_char(i) != b.get_char(i) {
            return false;
        }
        i += 1;
    }
    assert(a@ =~= b@);
    true
}

/// Exec check: the name appears among the pairs' external names.
fn name_in_pairs(name: &String, pairs: &Vec<(u16, String)>) -> (r: bool)
    ensures
        r == name_found(pairs_view(pairs@), name@),
{
    let ghost pv = pairs_view(pairs@);
    let n = pairs.len();
    let mut i: usize = 0;
    while i < n
        invariant
            i <= n,
            n == pairs@.len(),
            pv == pairs_view(pairs@),
            pv.len() == n,
            forall|p: int| 0 <= p < i ==> (#[trigger] pv[p]).1 != name@,
        decreases n - i,
    {
        proof {
            assert(pv[i as int] == (pairs@[i as int].0, pairs@[i as int].1@));
        }
        if str_eq(pairs[i].1.as_str(), name.as_str()) {
            assert(pv[i as int].1 == name@);
            return true;
        }
        i += 1;
    }
    false
}

/// Exec check of [`names_covered`].
fn check_names_covered(required: &Vec<String>, pairs: &Vec<(u16, String)>) -> (r: bool)
    ensures
        r == names_covered(required@.map_values(|s: String| s@), pairs_view(pairs@)),
{
    let ghost rv = required@.map_values(|s: String| s@);
    let n = required.len();
    let mut i: usize = 0;
    while i < n
        invariant
            i <= n,
            n == required@.len(),
            rv == required@.map_values(|s: String| s@),
            rv.len() == n,
            forall|p: int| 0 <= p < i ==> #[trigger] name_found(pairs_view(pairs@), rv[p]),
        decreases n - i,
    {
        proof {
            assert(rv[i as int] == required@[i as int]@);
        }
        if !name_in_pairs(&required[i], pairs) {
            assert(!names_covered(rv, pairs_view(pairs@)));
            return false;
        }
        i += 1;
    }
    true
}

/// Whether a binding's name maps reference only ids the schema declares.
pub open spec fn binding_ids_bound(
    globals: Seq<(u16, Seq<char>)>,
    assignments: Seq<(u16, Seq<char>)>,
    transitions: Seq<(u16, Seq<char>)>,
    s: crate::schema::SchemaView,
) -> bool {
    &&& rule_keys_within(globals, s.global_types)
    &&& rule_keys_within(assignments, s.owned_types)
    &&& rule_keys_within(transitions, s.transitions)
}

/// Whether a binding covers every external name the interface expects.
pub open spec fn binding_names_covered(
    iface: IfaceDescriptorView,
    globals: Seq<(u16, Seq<char>)>,
    assignments: Seq<(u16, Seq<char>)>,
    transitions: Seq<(u16, Seq<char>)>,
) -> bool {
    &&& names_covered(iface.globals, globals)
    &&& names_covered(iface.assignments, assignments)
    &&& names_covered(iface.transitions, transitions)
}

/// Builds the implementation binding of `schema` against the interface.
///
/// Succeeds exactly when every named internal id exists in the schema and
/// every external field name the interface expects is covered; then the
/// binding records the schema's content-derived identity, the interface's
/// identity, the author taken from the schema, and the given timestamp.
pub fn bind_interface(
    schema: &Schema,
    iface: &IfaceDescriptor,
    globals: Vec<(u16, String)>,
    assignments: Vec<(u16, String)>,
    transitions: Vec<(u16, String)>,
    timestamp: i64,
) -> (r: Result<IfaceImpl, BuildError>)
    ensures
        r is Ok <==> binding_ids_bound(
            pairs_view(globals@),
            pairs_view(assignments@),
            pairs_view(transitions@),
            schema@,
        ) && binding_names_covered(
            iface@,
            pairs_view(globals@),
            pairs_view(assignments@),
            pairs_view(transitions@),
        ),
        r == Err::<IfaceImpl, BuildError>(BuildError::UnknownBindingId) <==> !binding_ids_bound(
            pairs_view(globals@),
            pairs_view(assignments@),
            pairs_view(transitions@),
            schema@,
        ),
        r == Err::<IfaceImpl, BuildError>(BuildError::MissingInterfaceField)
            <==> binding_ids_bound(
            pairs_view(globals@),
            pairs_view(assignments@),
            pairs_view(transitions@),
            schema@,
        ) && !binding_names_covered(
            iface@,
            pairs_view(globals@),
            pairs_view(assignments@),
            pairs_view(transitions@),
        ),
        r matches Ok(b) ==> b@ == (IfaceImplView {
            version: BINDING_VERSION,
            schema_id: schema_id_of(schema@),
            iface_id: iface@.iface_id,
            timestamp: timestamp,
            developer: schema@.developer,
            global_state: pairs_view(globals@),
            assignments: pairs_view(assignments@),
            transitions: pairs_view(transitions@),
        }),
{
    proof {
        crate::maps::lemma_same_keys(schema.transitions@, schema@.transitions);
        crate::maps::lemma_same_slot_tables(transitions@, schema.transitions@, schema@.transitions);
        crate::maps::lemma_same_keys(schema.global_types@, schema@.global_types);
        crate::maps::lemma_same_slot_tables(globals@, schema.global_types@, schema@.global_types);
        crate::maps::lemma_same_rule_keys(globals@, pairs_view(globals@), schema@.global_types);
        crate::maps::lemma_same_rule_keys(
            assignments@,
            pairs_view(assignments@),
            schema@.owned_types,
        );
        crate::maps::lemma_same_rule_keys(
            transitions@,
            pairs_view(transitions@),
            schema@.transitions,
        );
    }
    if !check_rule_keys_within(&globals, &schema.global_types) {
        return Err(BuildError::UnknownBindingId);
    }
    if !check_rule_keys_within(&assignments, &schema.owned_types) {
        return Err(BuildError::UnknownBindingId);
    }
    if !check_rule_keys_within(&transitions, &schema.transitions) {
        return Err(BuildError::UnknownBindingId);
    }
    if !check_names_covered(&iface.globals, &globals) {
        return Err(BuildError::MissingInterfaceField);
    }
    if !check_names_covered(&iface.assignments, &assignments) {
        return Err(BuildError::MissingInterfaceField);
    }
    if !check_names_covered(&iface.transitions, &transitions) {
        return Err(BuildError::MissingInterfaceField);
    }
    let schema_id = schema.schema_id();
    Ok(IfaceImpl {
        version: BINDING_VERSION,
        schema_id,
        iface_id: iface.iface_id,
        timestamp,
        developer: clone_string(&schema.developer),
        global_state: globals,
        assignments,
        transitions,
    })
}

/// Clones a text, keeping its characters.
fn clone_string(s: &String) -> (r: String)
    ensures
        r@ == s@,
{
    s.as_str().to_owned()
}

} // verus!
