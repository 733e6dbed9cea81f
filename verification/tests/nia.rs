//! End-to-end checks of the NIA contract family and its building blocks,
//! run against the real outside crates.

use rgb_schemata::errors::BuildError;
use rgb_schemata::iface::{bind_interface, IfaceDescriptor};
use rgb_schemata::isa::{assemble, Instr, OP_PCCS, OP_PCVS, OP_RET};
use rgb_schemata::library::assemble_library;
use rgb_schemata::maps::map_contains;
use rgb_schemata::canon::canonical_bytes;
use rgb_schemata::nia::{
    nia_instructions, nia_lib, nia_rgb20, nia_schema, nia_scripts, NonInflatableAsset,
    FN_GENESIS_OFFSET, FN_TRANSFER_OFFSET, GS_ISSUED_SUPPLY, GS_NOMINAL, GS_TERMS, OS_ASSET,
    TS_TRANSFER,
};
use rgb_schemata::package::build_package;
use rgb_schemata::schema::{
    GenesisRule, GlobalSlot, Occurrences, Schema,
};

fn rgb20_descriptor() -> IfaceDescriptor {
    IfaceDescriptor {
        iface_id: [7u8; 32],
        globals: vec!["spec".to_owned(), "terms".to_owned(), "issuedSupply".to_owned()],
        assignments: vec!["assetOwner".to_owned()],
        transitions: vec!["transfer".to_owned()],
    }
}

#[test]
fn opcodes_match_the_machine() {
    assert_eq!(OP_PCVS, rgbstd::vm::opcodes::INSTR_PCVS);
    assert_eq!(OP_PCCS, rgbstd::vm::opcodes::INSTR_PCCS);
    assert_eq!(OP_RET, aluvm::isa::opcodes::INSTR_RET);
}

#[test]
fn nia_lib_exact_bytes() {
    let lib = nia_lib();
    assert_eq!(
        lib.code,
        vec![0xd1, 0xa0, 0x0f, 0xd0, 0x07, 0x07, 0xd0, 0xa0, 0x0f],
    );
}

#[test]
fn nia_lib_entry_points() {
    let lib = nia_lib();
    assert_eq!(FN_GENESIS_OFFSET, 0);
    assert_eq!(FN_TRANSFER_OFFSET, 6);
    assert_eq!(lib.code[FN_GENESIS_OFFSET as usize], OP_PCCS);
    assert_eq!(lib.code[FN_TRANSFER_OFFSET as usize], OP_PCVS);
}

#[test]
fn nia_lib_id_is_stable() {
    let a = nia_lib();
    let b = nia_lib();
    assert_eq!(a.code, b.code);
    assert_eq!(a.id, b.id);
}

#[test]
fn lib_id_depends_on_code() {
    let a = nia_lib();
    let other = assemble_library("ALU BPDIGEST RGB", &vec![Instr::Pcvs(4000)]).unwrap();
    assert_ne!(a.id, other.id);
    assert_ne!(a.id.to_vec(), a.code);
}

#[test]
fn assembly_rejects_oversized_streams() {
    let mut instrs = Vec::new();
    for _ in 0..14000 {
        instrs.push(Instr::Pccs(1, 2));
    }
    assert_eq!(assemble(&instrs), Err(BuildError::OversizedCode));
    assert!(assemble_library("ALU BPDIGEST RGB", &instrs).is_err());
}

#[test]
fn nia_schema_is_valid_and_wired() {
    let schema = nia_schema();
    assert!(schema.validate().is_ok());
    let libs = nia_scripts();
    assert!(schema.check_wiring(&libs).is_ok());
}

#[test]
fn nia_schema_id_is_stable() {
    let a = nia_schema();
    let b = nia_schema();
    assert_eq!(canonical_bytes(&a), canonical_bytes(&b));
    assert_eq!(a.schema_id(), b.schema_id());
}

#[test]
fn schema_id_depends_on_content() {
    let a = nia_schema();
    let mut b = nia_schema();
    b.name = "NonInflatableAsset2".to_owned();
    assert_ne!(a.schema_id(), b.schema_id());
    let id = a.schema_id();
    assert_eq!(id.len(), 32);
    assert_ne!(id.to_vec(), canonical_bytes(&a));
}

#[test]
fn standard_type_ids_are_distinct() {
    let schema = nia_schema();
    let mut sems = Vec::new();
    for (_, slot) in &schema.global_types {
        sems.push(slot.sem_id);
    }
    assert_eq!(sems.len(), 3);
    assert_ne!(sems[0], sems[1]);
    assert_ne!(sems[0], sems[2]);
    assert_ne!(sems[1], sems[2]);
}

#[test]
fn issued_supply_declared_exactly_once() {
    let schema = nia_schema();
    assert_eq!(schema.genesis_global_occ(GS_ISSUED_SUPPLY), Some(Occurrences::Once));
    assert_eq!(schema.genesis_global_occ(GS_NOMINAL), Some(Occurrences::Once));
    assert_eq!(schema.genesis_global_occ(GS_TERMS), Some(Occurrences::Once));
    assert!(Occurrences::Once.admits(1));
    assert!(!Occurrences::Once.admits(0));
    assert!(!Occurrences::Once.admits(2));
    assert!(Occurrences::OnceOrMore.admits(1));
    assert!(Occurrences::OnceOrMore.admits(5));
    assert!(!Occurrences::OnceOrMore.admits(0));
}

#[test]
fn dangling_slot_reference_fails() {
    let mut schema = nia_schema();
    schema.genesis.globals.push((9999, Occurrences::Once));
    assert_eq!(schema.validate(), Err(BuildError::DanglingSlotRef));
}

#[test]
fn duplicate_slot_id_fails() {
    let mut schema = nia_schema();
    let dup = schema.global_types[0];
    schema.global_types.push(dup);
    assert_eq!(schema.validate(), Err(BuildError::DuplicateSlotId));
}

#[test]
fn wrong_offset_fails_wiring() {
    let mut schema = nia_schema();
    let libs = nia_scripts();
    match &mut schema.genesis.validator {
        Some(v) => v.offset = FN_TRANSFER_OFFSET,
        None => unreachable!(),
    }
    assert_eq!(schema.check_wiring(&libs), Err(BuildError::ValidatorMismatch));
}

#[test]
fn binding_covers_interface_and_schema() {
    let iface = rgb20_descriptor();
    let binding = nia_rgb20(&iface).unwrap();
    let schema = nia_schema();
    assert_eq!(binding.schema_id, schema.schema_id());
    assert_eq!(binding.iface_id, iface.iface_id);
    assert_eq!(binding.version, 1);
    for (id, _) in &binding.global_state {
        assert!(map_contains(&schema.global_types, *id));
    }
    for (id, _) in &binding.assignments {
        assert!(map_contains(&schema.owned_types, *id));
    }
    for (id, _) in &binding.transitions {
        assert!(map_contains(&schema.transitions, *id));
    }
    let names: Vec<&str> = binding.global_state.iter().map(|p| p.1.as_str()).collect();
    assert_eq!(names, vec!["spec", "terms", "issuedSupply"]);
    assert_eq!(binding.assignments[0], (OS_ASSET, "assetOwner".to_owned()));
    assert_eq!(binding.transitions[0], (TS_TRANSFER, "transfer".to_owned()));
}

#[test]
fn binding_missing_interface_field_fails() {
    let mut iface = rgb20_descriptor();
    iface.assignments.push("inflationAllowance".to_owned());
    assert_eq!(nia_rgb20(&iface).unwrap_err(), BuildError::MissingInterfaceField);
}

#[test]
fn binding_absent_owned_category_fails() {
    // A schema without owned slots cannot satisfy an interface that expects
    // an owned-state field: the only pair the author can write names an id
    // the schema does not declare.
    let schema = Schema {
        name: "Bare".to_owned(),
        developer: "ssi:anonymous@lnp-bp.org".to_owned(),
        global_types: vec![(GS_NOMINAL, GlobalSlot { sem_id: [0u8; 32], occ: Occurrences::Once })],
        owned_types: vec![],
        genesis: GenesisRule {
            globals: vec![(GS_NOMINAL, Occurrences::Once)],
            assignments: vec![],
            validator: None,
        },
        transitions: vec![],
    };
    assert!(schema.validate().is_ok());
    let iface = rgb20_descriptor();
    let r = bind_interface(
        &schema,
        &iface,
        vec![(GS_NOMINAL, "spec".to_owned())],
        vec![(OS_ASSET, "assetOwner".to_owned())],
        vec![],
        0,
    );
    assert_eq!(r.unwrap_err(), BuildError::UnknownBindingId);
}

#[test]
fn package_builds_and_resolves_validators() {
    let iface = rgb20_descriptor();
    let package = NonInflatableAsset::package(&iface).unwrap();
    assert_eq!(package.libs.len(), 1);

    let mut checks = 0;
    let genesis = package.schema.genesis.validator.as_ref().unwrap();
    for lib in &package.libs {
        if lib.id == genesis.lib {
            assert_eq!(lib.code[genesis.offset as usize], OP_PCCS);
            checks += 1;
        }
    }
    for (_, rule) in &package.schema.transitions {
        let v = rule.validator.as_ref().unwrap();
        for lib in &package.libs {
            if lib.id == v.lib {
                assert_eq!(lib.code[v.offset as usize], OP_PCVS);
                checks += 1;
            }
        }
    }
    assert_eq!(checks, 2);
    assert_eq!(package.binding.schema_id, package.schema.schema_id());
}

#[test]
fn package_rejects_foreign_binding() {
    let iface = rgb20_descriptor();
    let mut binding = nia_rgb20(&iface).unwrap();
    binding.schema_id[0] ^= 0xff;
    let r = build_package(nia_schema(), binding, nia_scripts());
    assert_eq!(r.unwrap_err(), BuildError::ForeignSchema);
}

#[test]
fn package_rejects_repeated_library() {
    let iface = rgb20_descriptor();
    let binding = nia_rgb20(&iface).unwrap();
    let mut libs = nia_scripts();
    let copy = libs[0].clone();
    libs.push(copy);
    let r = build_package(nia_schema(), binding, libs);
    assert_eq!(r.unwrap_err(), BuildError::RepeatedLibrary);
}

#[test]
fn issuer_artifacts_agree() {
    let schema = NonInflatableAsset::schema();
    let scripts = NonInflatableAsset::scripts();
    let iface = rgb20_descriptor();
    let binding = NonInflatableAsset::issue_impl(&iface).unwrap();
    assert_eq!(schema.schema_id(), binding.schema_id);
    assert_eq!(scripts[0].code, nia_instructions_bytes());
    assert!(schema.check_wiring(&scripts).is_ok());
}

fn nia_instructions_bytes() -> Vec<u8> {
    assemble(&nia_instructions()).unwrap()
}

#[test]
fn type_system_is_available() {
    let ts = NonInflatableAsset::types();
    assert!(!format!("{:?}", ts).is_empty());
}
