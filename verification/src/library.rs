//! Content-addressed bytecode modules ("libraries").
//!
//! A library is created once by the assembler, never mutated, and may be
//! referenced by many schemas through its identity. The identity is the one
//! the verification machine itself derives, so a schema built here addresses
//! exactly the module the machine will load.

use vstd::prelude::*;

use amplify::ByteArray;

use crate::errors::BuildError;
use crate::isa::{assemble, spec_assemble, Instr, MAX_CODE_LEN};

verus! {

/// The ISA extension set that the validation subroutines of this crate
/// require from the verification machine.
pub open spec fn rgb_isa_seg() -> Seq<char> {
    "ALU BPDIGEST RGB"@
}

/// What a module's identity is: the digest that the verification machine
/// derives from the ISA segment and the code segment (the data and call
/// segments of the modules built here are empty). A pure function of both.
pub uninterp spec fn lib_id_of(isa: Seq<char>, code: Seq<u8>) -> Seq<u8>;

/// Relies on aluvm's `Lib::with` and `Lib::id`: a library with the given ISA
/// segment, the given code and empty data and call segments has the identity
/// digest that `Lib::id` computes, a pure function of the segments.
#[verifier::external_body]
fn aluvm_lib_id(isa: &str, code: &Vec<u8>) -> (r: [u8; 32])
    requires
        isa@ == rgb_isa_seg(),
        code@.len() <= MAX_CODE_LEN,
    ensures
        r@ == lib_id_of(isa@, code@),
{
    let lib = aluvm::library::Lib::with(
        isa,
        code.clone(),
        vec![],
        aluvm::library::LibSeg::default(),
    ).expect("ISA ids are well-formed and the code fits the segment");
    lib.id().to_byte_array()
}

/// An immutable, content-addressed bytecode module.
#[derive(Clone, Debug)]
pub struct Library {
    /// The ISA extension set the code requires.
    pub isa: String,
    /// The code segment: the assembled instruction stream.
    pub code: Vec<u8>,
    /// The content-derived identity of the module.
    pub id: [u8; 32],
}

#[verifier::ext_equal]
pub struct LibraryView {
    pub isa: Seq<char>,
    pub code: Seq<u8>,
    pub id: Seq<u8>,
}

impl View for Library {
    type V = LibraryView;

    open spec fn view(&self) -> LibraryView {
        LibraryView { isa: self.isa@, code: self.code@, id: self.id@ }
    }
}

impl LibraryView {
    /// The identity is derived from the content and the code fits the
    /// machine's code segment.
    pub open spec fn wf(self) -> bool {
        self.id == lib_id_of(self.isa, self.code) && self.code.len() <= MAX_CODE_LEN
    }
}

/// Assembles a symbolic instruction sequence into a content-addressed
/// library for the given ISA extension set. Fails exactly when the encoded
/// stream would overflow the code segment.
pub fn assemble_library(isa: &str, instrs: &Vec<Instr>) -> (r: Result<Library, BuildError>)
    requires
        isa@ == rgb_isa_seg(),
    ensures
        r matches Ok(lib) ==> lib@.wf()
            && lib@.isa == isa@
            && lib@.code == spec_assemble(instrs@),
        r is Err ==> r == Err::<Library, BuildError>(BuildError::OversizedCode)
            && spec_assemble(instrs@).len() > MAX_CODE_LEN,
{
    let code = match assemble(instrs) {
        Ok(c) => c,
        Err(e) => {
            return Err(e);
        }
    };
    let id = aluvm_lib_id(isa, &code);
    Ok(Library { isa: isa.to_owned(), code, id })
}

/// Content addressing: two well-formed modules with equal ISA sets and equal
/// instruction streams carry equal identities, whatever else differs about
/// how or when they were built.
pub proof fn lemma_library_content_addressed(a: LibraryView, b: LibraryView)
    requires
        a.wf(),
        b.wf(),
        a.isa == b.isa,
        a.code == b.code,
    ensures
        a.id == b.id,
{
}

} // verus!
