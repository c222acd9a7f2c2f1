//! Text handed to the native layer: names and string contents.
use vstd::prelude::*;
use vstd::string::StringSliceAdditionalSpecFns;

verus! {

/// Text that the native layer cannot take.
#[derive(Clone, Copy, Debug, PartialEq, Eq, Structural)]
pub enum TextError {
    /// A name (of a module, block, type or value) holds a null byte.
    InvalidName,
    /// The contents of a string constant hold a null byte.
    InvalidText,
}

/// The bytes hold no null byte.
pub open spec fn nul_free(b: Seq<u8>) -> bool {
    forall|i: int| 0 <= i < b.len() ==> b[i] != 0u8
}

/// The null-terminated form of `b`.
pub open spec fn terminated(b: Seq<u8>) -> Seq<u8> {
    b.push(0u8)
}

/// The UTF-8 bytes of `s`, if they hold no null byte.
pub fn text_bytes(s: &str) -> (r: Option<Vec<u8>>)
    ensures
        nul_free(s.spec_bytes()) <==> r is Some,
        r is Some ==> r->0@ == s.spec_bytes(),
{
    let b = s.as_bytes();
    let mut out: Vec<u8> = Vec::new();
    let mut i: usize = 0;
    while i < b.len()
        invariant
            b@ == s.spec_bytes(),
            i <= b@.len(),
            out@ == b@.subrange(0, i as int),
            nul_free(out@),
        decreases b@.len() - i,
    {
        if b[i] == 0u8 {
            return None;
        }
        out.push(b[i]);
        i = i + 1;
    }
    assert(out@ == b@);
    Some(out)
}

/// The null-terminated bytes of a name, or `InvalidName` where the name holds
/// a null byte.
pub fn c_name(name: &str) -> (r: Result<Vec<u8>, TextError>)
    ensures
        nul_free(name.spec_bytes()) <==> r is Ok,
        r is Ok ==> r->Ok_0@ == terminated(name.spec_bytes()),
        r is Err ==> r->Err_0 == TextError::InvalidName,
{
    match text_bytes(name) {
        Some(mut v) => {
            v.push(0u8);
            Ok(v)
        },
        None => Err(TextError::InvalidName),
    }
}

} // verus!
