use vstd::prelude::*;
use vstd::string::StringSliceAdditionalSpecFns;
use vstd::utf8::{encode_utf8, encode_utf8_decode_utf8, encode_utf8_valid_utf8, valid_utf8};

use crate::error::TunError;

verus! {

/// Size of the kernel's interface-name buffer, terminator included.
pub const IFNAMSIZ: usize = 16;

/// True when no byte of `b` is the terminator.
pub open spec fn no_nul(b: Seq<u8>) -> bool {
    forall|i: int| 0 <= i < b.len() ==> b[i] != 0u8
}

/// `b` followed by zero bytes up to the buffer size.
pub open spec fn padded(b: Seq<u8>) -> Seq<u8> {
    Seq::new(IFNAMSIZ as nat, |i: int| if i < b.len() { b[i] } else { 0u8 })
}

/// True when position `p` holds the first terminator of `b`.
pub open spec fn first_nul_at(b: Seq<u8>, p: int) -> bool {
    &&& 0 <= p < b.len()
    &&& b[p] == 0u8
    &&& no_nul(b.subrange(0, p))
}

/// True when `b` holds a terminator somewhere.
pub open spec fn has_nul(b: Seq<u8>) -> bool {
    exists|p: int| 0 <= p < b.len() && b[p] == 0u8
}

/// A fixed-size, zero-padded interface name as the kernel exchanges it.
///
/// The buffer is kept exactly as it was encoded or as the kernel returned
/// it; decoding checks for the terminator.
#[derive(Debug, Clone, Copy, PartialEq, Eq)]
pub struct IfName {
    bytes: [u8; 16],
}

impl View for IfName {
    type V = Seq<u8>;

    closed spec fn view(&self) -> Seq<u8> {
        self.bytes@
    }
}

/// Relies on std::str::from_utf8: it accepts exactly the well-formed UTF-8
/// byte sequences and returns them unchanged as text.
#[verifier::external_body]
fn utf8_text(b: &[u8]) -> (r: Option<&str>)
    ensures
        r is Some <==> valid_utf8(b@),
        r matches Some(s) ==> s.spec_bytes() == b@,
{
    std::str::from_utf8(b).ok()
}

impl IfName {
    /// Encodes a requested interface name into the zero-padded buffer.
    ///
    /// Fails with `NameTooLong` when the name and its terminator do not fit.
    /// Otherwise the name's bytes are copied as they are: a zero byte inside
    /// the name ends it where the kernel and `to_text` read it.
    pub fn encode(name: &str) -> (r: Result<IfName, TunError>)
        ensures
            name.spec_bytes().len() >= IFNAMSIZ ==> r == Err::<IfName, TunError>(
                TunError::NameTooLong,
            ),
            name.spec_bytes().len() < IFNAMSIZ ==> (r matches Ok(n) && n@ == padded(
                name.spec_bytes(),
            )),
    {
        let b = name.as_bytes();
        if b.len() >= IFNAMSIZ {
            return Err(TunError::NameTooLong);
        }
        let mut bytes = [0u8; 16];
        let mut i: usize = 0;
        while i < b.len()
            invariant
                b@ == name.spec_bytes(),
                b@.len() < IFNAMSIZ,
                i <= b@.len(),
                bytes@.len() == IFNAMSIZ,
                forall|k: int| 0 <= k < i ==> bytes@[k] == b@[k],
                forall|k: int| i <= k < IFNAMSIZ ==> bytes@[k] == 0u8,
            decreases b@.len() - i,
        {
            bytes[i] = b[i];
            i = i + 1;
        }
        let r = IfName { bytes };
        assert(r@ =~= padded(b@));
        Ok(r)
    }

    /// Takes a name buffer as the kernel returned it, unchanged.
    pub fn from_bytes(bytes: [u8; 16]) -> (r: IfName)
        ensures
            r@ == bytes@,
    {
        IfName { bytes }
    }

    /// The raw buffer, as handed to the kernel.
    pub fn as_bytes(&self) -> (r: [u8; 16])
        ensures
            r@ == self@,
    {
        self.bytes
    }

    /// Position of the first terminator, if there is one.
    pub fn terminator(&self) -> (r: Option<usize>)
        ensures
            r matches Some(p) ==> first_nul_at(self@, p as int),
            r is None <==> !has_nul(self@),
    {
        let mut i: usize = 0;
        while i < IFNAMSIZ
            invariant
                self@.len() == IFNAMSIZ,
                i <= IFNAMSIZ,
                no_nul(self@.subrange(0, i as int)),
            decreases IFNAMSIZ - i,
        {
            if self.bytes[i] == 0 {
                return Some(i);
            }
            assert(self@.subrange(0, i + 1) =~= self@.subrange(0, i as int).push(self@[i as int]));
            i = i + 1;
        }
        assert(self@.subrange(0, IFNAMSIZ as int) =~= self@);
        None
    }

    /// Decodes the name: the text before the first terminator.
    ///
    /// Fails with `InvalidState` when the buffer holds no terminator or the
    /// bytes before it are not UTF-8.
    pub fn to_text(&self) -> (r: Result<String, TunError>)
        ensures
            !has_nul(self@) ==> r == Err::<String, TunError>(TunError::InvalidState),
            forall|p: int|
                first_nul_at(self@, p) ==> {
                    let prefix = self@.subrange(0, p);
                    &&& valid_utf8(prefix) ==> (r matches Ok(s) && encode_utf8(s@) == prefix)
                    &&& !valid_utf8(prefix) ==> r == Err::<String, TunError>(
                        TunError::InvalidState,
                    )
                },
    {
        match self.terminator() {
            None => Err(TunError::InvalidState),
            Some(p) => {
                proof {
                    lemma_first_nul_unique(self@, p as int);
                }
                let prefix = vstd::slice::slice_subrange(self.bytes.as_slice(), 0, p);
                match utf8_text(prefix) {
                    None => Err(TunError::InvalidState),
                    Some(s) => Ok(s.to_owned()),
                }
            },
        }
    }
}

/// There is at most one first terminator.
proof fn lemma_first_nul_unique(b: Seq<u8>, p: int)
    requires
        first_nul_at(b, p),
    ensures
        forall|q: int| first_nul_at(b, q) ==> q == p,
{
    assert forall|q: int| first_nul_at(b, q) implies q == p by {
        if q < p {
            assert(b.subrange(0, p)[q] == b[q]);
        } else if p < q {
            assert(b.subrange(0, q)[p] == b[p]);
        }
    }
}

/// A name that fits is decoded back to exactly the text that was encoded:
/// its buffer has the terminator right after the name, the bytes before it
/// are well-formed UTF-8, and the only text they encode is the name.
pub proof fn lemma_name_round_trip(name: &str, n: IfName)
    requires
        no_nul(name.spec_bytes()),
        name.spec_bytes().len() < IFNAMSIZ,
        n@ == padded(name.spec_bytes()),
    ensures
        first_nul_at(n@, name.spec_bytes().len() as int),
        valid_utf8(n@.subrange(0, name.spec_bytes().len() as int)),
        forall|c: Seq<char>|
            #[trigger] encode_utf8(c) == n@.subrange(0, name.spec_bytes().len() as int) ==> c
                == name@,
{
    let b = name.spec_bytes();
    assert(n@.subrange(0, b.len() as int) =~= b);
    encode_utf8_valid_utf8(name@);
    assert forall|c: Seq<char>| #[trigger] encode_utf8(c) == b implies c == name@ by {
        encode_utf8_decode_utf8(c);
        encode_utf8_decode_utf8(name@);
    }
}

} // verus!
