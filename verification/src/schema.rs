//! The declarative contract shape: state slots, operation rules and their
//! wiring to validation bytecode.
//!
//! A schema declares what state a contract carries (global and owned slots,
//! each under an occurrence constraint), how it comes into being (the genesis
//! rule) and how it may change (transition rules), and wires genesis and every
//! transition kind to the exact entry point of a validation subroutine inside
//! a content-addressed bytecode library.

use vstd::prelude::*;

use crate::errors::BuildError;
use crate::isa::{OP_PCCS, OP_PCVS};
use crate::library::{Library, LibraryView};
use crate::maps::{
    check_keys_sorted, check_rule_keys_within, keys_sorted, lemma_same_keys, map_get,
    rule_keys_within,
};

verus! {

/// How many times a slot may occur in one operation.
#[derive(Clone, Copy, Debug, PartialEq, Eq, Structural)]
pub enum Occurrences {
    /// The slot must appear with multiplicity exactly one.
    Once,
    /// The slot must appear with multiplicity one or more, unbounded above.
    OnceOrMore,
}

impl Occurrences {
    /// The multiplicities the constraint admits.
    pub open spec fn allows(self, n: nat) -> bool {
        match self {
            Occurrences::Once => n == 1,
            Occurrences::OnceOrMore => n >= 1,
        }
    }

    /// Exec mirror of [`Occurrences::allows`], for validation layers that
    /// count actual occurrences against the declared constraint.
    pub fn admits(&self, n: u64) -> (r: bool)
        ensures
            r == self.allows(n as nat),
    {
        match self {
            Occurrences::Once => n == 1,
            Occurrences::OnceOrMore => n >= 1,
        }
    }
}

/// A slot declared "exactly once" is declared faithfully: the constraint
/// admits multiplicity one and rejects every other multiplicity — zero as
/// well as two or more. (Enforcement against actual state happens at a
/// higher validation layer; the schema's duty is the correct declaration.)
pub proof fn lemma_once_is_exact(n: nat)
    ensures
        Occurrences::Once.allows(n) <==> n == 1,
{
}

/// A contract-level named field: its data type, as the 32-byte semantic
/// identity the external type system gives it, and its own occurrence
/// declaration.
#[derive(Clone, Copy, Debug, PartialEq, Eq)]
pub struct GlobalSlot {
    /// Semantic identity of the field's data type.
    pub sem_id: [u8; 32],
    /// How many atoms of this field a contract state may carry.
    pub occ: Occurrences,
}

#[verifier::ext_equal]
pub struct GlobalSlotView {
    pub sem_id: Seq<u8>,
    pub occ: Occurrences,
}

impl View for GlobalSlot {
    type V = GlobalSlotView;

    open spec fn view(&self) -> GlobalSlotView {
        GlobalSlotView { sem_id: self.sem_id@, occ: self.occ }
    }
}

/// Value kind of an owned-state slot.
#[derive(Clone, Copy, Debug, PartialEq, Eq, Structural)]
pub enum OwnedSlotKind {
    /// An unsigned 64-bit fungible amount under homomorphic commitment.
    FungibleUnsigned64,
}

/// Reference to the validation subroutine that must accept an operation:
/// a library identity and the byte offset of the subroutine's entry point.
#[derive(Clone, Copy, Debug, PartialEq, Eq)]
pub struct ValidatorAddr {
    /// Identity of the library holding the subroutine.
    pub lib: [u8; 32],
    /// Byte offset of the subroutine's first instruction.
    pub offset: u16,
}

#[verifier::ext_equal]
pub struct ValidatorAddrView {
    pub lib: Seq<u8>,
    pub offset: u16,
}

impl View for ValidatorAddr {
    type V = ValidatorAddrView;

    open spec fn view(&self) -> ValidatorAddrView {
        ValidatorAddrView { lib: self.lib@, offset: self.offset }
    }
}

/// View of an optional validator address.
pub open spec fn opt_vaddr_view(v: Option<ValidatorAddr>) -> Option<ValidatorAddrView> {
    match v {
        None => None,
        Some(a) => Some(a@),
    }
}

/// The contract-creation rule.
#[derive(Clone, Debug)]
pub struct GenesisRule {
    /// Required global slots, each with its occurrence in genesis.
    pub globals: Vec<(u16, Occurrences)>,
    /// Owned-state assignments genesis must create, with occurrences.
    pub assignments: Vec<(u16, Occurrences)>,
    /// Subroutine that must accept the created state, if any.
    pub validator: Option<ValidatorAddr>,
}

#[verifier::ext_equal]
pub struct GenesisRuleView {
    pub globals: Seq<(u16, Occurrences)>,
    pub assignments: Seq<(u16, Occurrences)>,
    pub validator: Option<ValidatorAddrView>,
}

impl View for GenesisRule {
    type V = GenesisRuleView;

    open spec fn view(&self) -> GenesisRuleView {
        GenesisRuleView {
            globals: self.globals@,
            assignments: self.assignments@,
            validator: opt_vaddr_view(self.validator),
        }
    }
}

/// A state-transition rule, keyed in the schema by its transition-kind id.
#[derive(Clone, Debug)]
pub struct TransitionRule {
    /// Owned-state slots the transition must consume, with occurrences.
    pub inputs: Vec<(u16, Occurrences)>,
    /// Owned-state slots the transition must produce, with occurrences.
    pub assignments: Vec<(u16, Occurrences)>,
    /// Subroutine that must accept the transition, if any.
    pub validator: Option<ValidatorAddr>,
}

#[verifier::ext_equal]
pub struct TransitionRuleView {
    pub inputs: Seq<(u16, Occurrences)>,
    pub assignments: Seq<(u16, Occurrences)>,
    pub validator: Option<ValidatorAddrView>,
}

impl View for TransitionRule {
    type V = TransitionRuleView;

    open spec fn view(&self) -> TransitionRuleView {
        TransitionRuleView {
            inputs: self.inputs@,
            assignments: self.assignments@,
            validator: opt_vaddr_view(self.validator),
        }
    }
}

/// The aggregate contract shape.
#[derive(Clone, Debug)]
pub struct Schema {
    /// The contract type's name.
    pub name: String,
    /// Identity of the schema's author.
    pub developer: String,
    /// Declared global slots, keyed by slot id.
    pub global_types: Vec<(u16, GlobalSlot)>,
    /// Declared owned slots, keyed by slot id.
    pub owned_types: Vec<(u16, OwnedSlotKind)>,
    /// The contract-creation rule.
    pub genesis: GenesisRule,
    /// Transition rules, keyed by transition-kind id.
    pub transitions: Vec<(u16, TransitionRule)>,
}

#[verifier::ext_equal]
pub struct SchemaView {
    pub name: Seq<char>,
    pub developer: Seq<char>,
    pub global_types: Seq<(u16, GlobalSlotView)>,
    pub owned_types: Seq<(u16, OwnedSlotKind)>,
    pub genesis: GenesisRuleView,
    pub transitions: Seq<(u16, TransitionRuleView)>,
}

impl View for Schema {
    type V = SchemaView;

    open spec fn view(&self) -> SchemaView {
        SchemaView {
            name: self.name@,
            developer: self.developer@,
            global_types: self.global_types@.map_values(|p: (u16, GlobalSlot)| (p.0, p.1@)),
            owned_types: self.owned_types@,
            genesis: self.genesis@,
            transitions: self.transitions@.map_values(|p: (u16, TransitionRule)| (p.0, p.1@)),
        }
    }
}

/// Every slot table of the schema keeps its keys strictly ascending, so no
/// id is declared or demanded twice.
pub open spec fn schema_keys_sorted(s: SchemaView) -> bool {
    &&& keys_sorted(s.global_types)
    &&& keys_sorted(s.owned_types)
    &&& keys_sorted(s.transitions)
    &&& keys_sorted(s.genesis.globals)
    &&& keys_sorted(s.genesis.assignments)
    &&& forall|i: int| 0 <= i < s.transitions.len()
        ==> keys_sorted((#[trigger] s.transitions[i]).1.inputs)
            && keys_sorted(s.transitions[i].1.assignments)
}

/// Slot-reference closure: every slot id a rule mentions is declared in the
/// corresponding slot table.
pub open spec fn schema_refs_closed(s: SchemaView) -> bool {
    &&& rule_keys_within(s.genesis.globals, s.global_types)
    &&& rule_keys_within(s.genesis.assignments, s.owned_types)
    &&& forall|i: int| 0 <= i < s.transitions.len()
        ==> rule_keys_within((#[trigger] s.transitions[i]).1.inputs, s.owned_types)
            && rule_keys_within(s.transitions[i].1.assignments, s.owned_types)
}

/// Structural well-formedness of a schema.
pub open spec fn schema_wf(s: SchemaView) -> bool {
    schema_keys_sorted(s) && schema_refs_closed(s)
}

/// The validator address points at the given opcode inside this library.
pub open spec fn resolves_in(v: ValidatorAddrView, lib: LibraryView, opcode: u8) -> bool {
    lib.id == v.lib && v.offset < lib.code.len() && lib.code[v.offset as int] == opcode
}

/// The validator address resolves, inside some library of the set, to an
/// offset holding the given opcode.
pub open spec fn validator_resolves(v: ValidatorAddrView, libs: Seq<LibraryView>, opcode: u8) -> bool {
    exists|i: int| 0 <= i < libs.len() && resolves_in(v, #[trigger] libs[i], opcode)
}

/// The views of a library set.
pub open spec fn views_of(libs: Seq<Library>) -> Seq<LibraryView> {
    libs.map_values(|l: Library| l@)
}

/// Every validator address of the schema resolves in the library set to the
/// opcode its operation requires: the commitment-sum consistency check for
/// genesis, the commitment-sum conservation check for every transition.
pub open spec fn schema_wired(s: SchemaView, libs: Seq<LibraryView>) -> bool {
    &&& (s.genesis.validator matches Some(v) ==> validator_resolves(v, libs, OP_PCCS))
    &&& forall|i: int| 0 <= i < s.transitions.len()
        ==> ((#[trigger] s.transitions[i]).1.validator matches Some(v)
            ==> validator_resolves(v, libs, OP_PCVS))
}

/// Exec equality of two 32-byte identities.
pub fn bytes32_eq(a: &[u8; 32], b: &[u8; 32]) -> (r: bool)
    ensures
        r == (a@ == b@),
{
    let mut i: usize = 0;
    while i < 32
        invariant
            i <= 32,
            forall|p: int| 0 <= p < i ==> a@[p] == b@[p],
        decreases 32 - i,
    {
        if a[i] != b[i] {
            return false;
        }
        i += 1;
    }
    assert(a@ =~= b@);
    true
}

/// Exec check of [`validator_resolves`].
fn validator_resolves_exec(v: &ValidatorAddr, libs: &Vec<Library>, opcode: u8) -> (r: bool)
    ensures
        r == validator_resolves(v@, views_of(libs@), opcode),
{
    let n = libs.len();
    let mut i: usize = 0;
    while i < n
        invariant
            i <= n,
            n == libs@.len(),
            forall|p: int| 0 <= p < i ==> !resolves_in(v@, #[trigger] views_of(libs@)[p], opcode),
        decreases n - i,
    {
        let lib = &libs[i];
        proof {
            assert(views_of(libs@)[i as int] == libs@[i as int]@);
        }
        if bytes32_eq(&lib.id, &v.lib) {
            let off = v.offset as usize;
            if off < lib.code.len() {
                if lib.code[off] == opcode {
                    assert(resolves_in(v@, views_of(libs@)[i as int], opcode));
                    return true;
                }
            }
        }
        i += 1;
    }
    false
}

impl Schema {
    /// Structural validation: accepts exactly the well-formed schemas, and
    /// names the first defect otherwise — a repeated (or disordered) slot id,
    /// or a rule referencing an undeclared slot.
    pub fn validate(&self) -> (r: Result<(), BuildError>)
        ensures
            r is Ok <==> schema_wf(self@),
            r == Err::<(), BuildError>(BuildError::DuplicateSlotId) <==> !schema_keys_sorted(self@),
            r == Err::<(), BuildError>(BuildError::DanglingSlotRef)
                <==> schema_keys_sorted(self@) && !schema_refs_closed(self@),
    {
        proof {
            lemma_same_keys(self.transitions@, self@.transitions);
            lemma_same_keys(self.global_types@, self@.global_types);
            crate::maps::lemma_same_slot_tables(
                self.genesis.globals@,
                self.global_types@,
                self@.global_types,
            );
        }
        if !check_keys_sorted(&self.global_types) {
            return Err(BuildError::DuplicateSlotId);
        }
        if !check_keys_sorted(&self.owned_types) {
            return Err(BuildError::DuplicateSlotId);
        }
        if !check_keys_sorted(&self.transitions) {
            return Err(BuildError::DuplicateSlotId);
        }
        if !check_keys_sorted(&self.genesis.globals) {
            return Err(BuildError::DuplicateSlotId);
        }
        if !check_keys_sorted(&self.genesis.assignments) {
            return Err(BuildError::DuplicateSlotId);
        }
        let n = self.transitions.len();
        let mut i: usize = 0;
        while i < n
            invariant
                i <= n,
                n == self@.transitions.len(),
                n == self.transitions@.len(),
                keys_sorted(self@.global_types),
                keys_sorted(self@.owned_types),
                keys_sorted(self@.transitions),
                keys_sorted(self@.genesis.globals),
                keys_sorted(self@.genesis.assignments),
                forall|p: int| 0 <= p < i
                    ==> keys_sorted((#[trigger] self@.transitions[p]).1.inputs)
                        && keys_sorted(self@.transitions[p].1.assignments),
            decreases n - i,
        {
            let tr = &self.transitions[i];
            proof {
                assert(self@.transitions[i as int].1 == self.transitions@[i as int].1@);
            }
            if !check_keys_sorted(&tr.1.inputs) {
                assert(!keys_sorted(self@.transitions[i as int].1.inputs));
                return Err(BuildError::DuplicateSlotId);
            }
            if !check_keys_sorted(&tr.1.assignments) {
                assert(!keys_sorted(self@.transitions[i as int].1.assignments));
                return Err(BuildError::DuplicateSlotId);
            }
            i += 1;
        }
        assert(schema_keys_sorted(self@));

        if !check_rule_keys_within(&self.genesis.globals, &self.global_types) {
            return Err(BuildError::DanglingSlotRef);
        }
        if !check_rule_keys_within(&self.genesis.assignments, &self.owned_types) {
            return Err(BuildError::DanglingSlotRef);
        }
        let mut j: usize = 0;
        while j < n
            invariant
                j <= n,
                n == self@.transitions.len(),
                n == self.transitions@.len(),
                schema_keys_sorted(self@),
                rule_keys_within(self@.genesis.globals, self@.global_types),
                rule_keys_within(self@.genesis.assignments, self@.owned_types),
                forall|p: int| 0 <= p < j
                    ==> rule_keys_within((#[trigger] self@.transitions[p]).1.inputs, self@.owned_types)
                        && rule_keys_within(self@.transitions[p].1.assignments, self@.owned_types),
            decreases n - j,
        {
            let tr = &self.transitions[j];
            proof {
                assert(self@.transitions[j as int].1 == self.transitions@[j as int].1@);
            }
            if !check_rule_keys_within(&tr.1.inputs, &self.owned_types) {
                assert(!rule_keys_within(self@.transitions[j as int].1.inputs, self@.owned_types));
                return Err(BuildError::DanglingSlotRef);
            }
            if !check_rule_keys_within(&tr.1.assignments, &self.owned_types) {
                assert(!rule_keys_within(
                    self@.transitions[j as int].1.assignments,
                    self@.owned_types,
                ));
                return Err(BuildError::DanglingSlotRef);
            }
            j += 1;
        }
        assert(schema_refs_closed(self@));
        Ok(())
    }

    /// Wiring validation: accepts exactly when every validator address of
    /// the schema resolves, inside the given script set, to the opcode its
    /// operation requires (see [`schema_wired`]).
    pub fn check_wiring(&self, libs: &Vec<Library>) -> (r: Result<(), BuildError>)
        ensures
            r is Ok <==> schema_wired(self@, views_of(libs@)),
            r is Err ==> r == Err::<(), BuildError>(BuildError::ValidatorMismatch),
    {
        match &self.genesis.validator {
            Some(v) => {
                if !validator_resolves_exec(v, libs, OP_PCCS) {
                    return Err(BuildError::ValidatorMismatch);
                }
            }
            None => {}
        }
        let n = self.transitions.len();
        let mut i: usize = 0;
        while i < n
            invariant
                i <= n,
                n == self@.transitions.len(),
                n == self.transitions@.len(),
                self@.genesis.validator matches Some(v)
                    ==> validator_resolves(v, views_of(libs@), OP_PCCS),
                forall|p: int| 0 <= p < i
                    ==> ((#[trigger] self@.transitions[p]).1.validator matches Some(v)
                        ==> validator_resolves(v, views_of(libs@), OP_PCVS)),
            decreases n - i,
        {
            let tr = &self.transitions[i];
            proof {
                assert(self@.transitions[i as int].1 == self.transitions@[i as int].1@);
            }
            match &tr.1.validator {
                Some(v) => {
                    if !validator_resolves_exec(v, libs, OP_PCVS) {
                        assert(!validator_resolves(
                            self@.transitions[i as int].1.validator->Some_0,
                            views_of(libs@),
                            OP_PCVS,
                        ));
                        return Err(BuildError::ValidatorMismatch);
                    }
                }
                None => {}
            }
            i += 1;
        }
        Ok(())
    }

    /// The occurrence constraint the genesis rule declares for a global
    /// slot, if the rule mentions it.
    pub fn genesis_global_occ(&self, slot: u16) -> (r: Option<Occurrences>)
        ensures
            r == map_get(self@.genesis.globals, slot),
    {
        crate::maps::map_get_copied(&self.genesis.globals, slot)
    }
}

/// Slot-reference closure, stated on its own: in a well-formed schema,
/// every slot id mentioned by the genesis rule or by any transition rule
/// exists in the corresponding slot table — no rule dangles.
pub proof fn lemma_wf_schema_refs_closed(s: SchemaView)
    requires
        schema_wf(s),
    ensures
        rule_keys_within(s.genesis.globals, s.global_types),
        rule_keys_within(s.genesis.assignments, s.owned_types),
        forall|i: int| 0 <= i < s.transitions.len()
            ==> rule_keys_within((#[trigger] s.transitions[i]).1.inputs, s.owned_types)
                && rule_keys_within(s.transitions[i].1.assignments, s.owned_types),
{
}

} // verus!
