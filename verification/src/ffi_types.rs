//! Small value wrappers used at the boundary with the C library.
use vstd::prelude::*;
use vstd::string::*;

verus! {

/// Wrapper marking a value that crosses the boundary with the C library.
pub struct FFI<T>(pub T);

/// The bytes of a NUL-terminated C string holding `bytes`.
pub open spec fn c_string_bytes(bytes: Seq<u8>) -> Seq<u8> {
    bytes.push(0u8)
}

/// `bytes` holds no NUL byte, so it can become a C string.
pub open spec fn nul_free(bytes: Seq<u8>) -> bool {
    forall|i: int| 0 <= i < bytes.len() ==> #[trigger] bytes[i] != 0u8
}

/// Checks whether a byte sequence contains no NUL byte.
pub fn bytes_nul_free(bytes: &[u8]) -> (r: bool)
    ensures
        r == nul_free(bytes@),
{
    let mut i: usize = 0;
    while i < bytes.len()
        invariant
            i <= bytes@.len(),
            nul_free(bytes@.subrange(0, i as int)),
        decreases bytes@.len() - i,
    {
        if bytes[i] == 0u8 {
            assert(bytes@[i as int] == 0u8);
            return false;
        }
        assert(nul_free(bytes@.subrange(0, i as int + 1))) by {
            assert forall|j: int| 0 <= j < i + 1 implies #[trigger] bytes@.subrange(0, i as int + 1)[j] != 0u8 by {
                if j < i {
                    assert(bytes@.subrange(0, i as int + 1)[j] == bytes@.subrange(0, i as int)[j]);
                }
            }
        }
        i = i + 1;
    }
    assert(bytes@.subrange(0, i as int) =~= bytes@);
    true
}

impl FFI<i32> {
    /// Interprets a C `int` as a boolean: any non-zero value is `true`.
    pub fn receive_bool(self) -> (r: bool)
        ensures
            r == (self.0 != 0),
    {
        self.0 != 0
    }
}

impl<'s> FFI<&'s str> {
    /// Turns the string into the bytes of a NUL-terminated C string.
    ///
    /// The string must not contain a NUL character.
    pub fn send(self) -> (r: Vec<u8>)
        requires
            nul_free(self.0.spec_bytes()),
        ensures
            r@ == c_string_bytes(self.0.spec_bytes()),
    {
        let bytes = self.0.as_bytes();
        let mut out: Vec<u8> = Vec::new();
        let mut i: usize = 0;
        while i < bytes.len()
            invariant
                bytes@ == self.0.spec_bytes(),
                i <= bytes@.len(),
                out@ == bytes@.subrange(0, i as int),
            decreases bytes@.len() - i,
        {
            out.push(bytes[i]);
            assert(out@ =~= bytes@.subrange(0, i as int + 1));
            i = i + 1;
        }
        assert(out@ =~= bytes@);
        out.push(0u8);
        out
    }
}

impl<'s> FFI<Option<&'s str>> {
    /// Turns an optional string into an optional C string: `None` becomes the null pointer.
    pub fn send(self) -> (r: Nullable<Vec<u8>>)
        requires
            self.0 is Some ==> nul_free(self.0->0.spec_bytes()),
        ensures
            match self.0 {
                None => r is Null,
                Some(s) => r matches Nullable::Val(v) && v@ == c_string_bytes(s.spec_bytes()),
            },
    {
        match self.0 {
            None => Nullable::Null,
            Some(v) => Nullable::Val(FFI(v).send()),
        }
    }
}

/// A value that may be passed to the C library as null.
pub enum Nullable<T> {
    Null,
    Val(T),
}

impl Nullable<u16> {
    /// The carried value, or zero (the C library's "unset") for `Null`.
    pub fn val(self) -> (r: u16)
        ensures
            match self {
                Nullable::Null => r == 0,
                Nullable::Val(v) => r == v,
            },
    {
        match self {
            Nullable::Null => 0,
            Nullable::Val(v) => v,
        }
    }
}

/// The `Nullable` that corresponds to an `Option`.
pub open spec fn nullable_of<T>(f: Option<T>) -> Nullable<T> {
    match f {
        None => Nullable::Null,
        Some(v) => Nullable::Val(v),
    }
}

impl<T> From<Option<T>> for Nullable<T> {
    fn from(f: Option<T>) -> (r: Nullable<T>) {
        match f {
            None => Nullable::Null,
            Some(v) => Nullable::Val(v),
        }
    }
}

impl<T> vstd::std_specs::convert::FromSpecImpl<Option<T>> for Nullable<T> {
    open spec fn obeys_from_spec() -> bool {
        true
    }

    open spec fn from_spec(v: Option<T>) -> Nullable<T> {
        nullable_of(v)
    }
}

} // verus!
