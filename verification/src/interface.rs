//! Names of network interfaces.

use vstd::prelude::*;
use vstd::slice::slice_subrange;
use vstd::string::StringSliceAdditionalSpecFns;
use vstd::utf8::{decode_utf8, valid_utf8};
use crate::key::Key;

verus! {

/// Size of the kernel's buffer for an interface name, the closing NUL
/// included.
pub const IFNAMSIZ: usize = 16;

/// A bad interface name.
#[derive(Debug, PartialEq, Eq, Clone, Copy)]
pub enum InvalidInterfaceName {
    /// Name was longer than the interface name length limit of the system.
    TooLong,
    /// Name was an empty string.
    Empty,
    /// Name contained a NUL, '/', or whitespace character.
    InvalidChars,
}

/// The name of a network interface, laid out as the kernel wants it: the
/// name's bytes, then NULs up to [`IFNAMSIZ`].
#[derive(PartialEq, Eq, Clone, Copy)]
pub struct InterfaceName([u8; IFNAMSIZ]);

/// What is known of a WireGuard device.
pub struct Device {
    /// The interface the device is.
    pub name: InterfaceName,
    /// The device's public key, where it has one.
    pub public_key: Option<Key>,
}

/// Space, tab, line feed, form feed or carriage return.
pub open spec fn is_ascii_whitespace(b: u8) -> bool {
    b == 0x20 || b == 0x09 || b == 0x0a || b == 0x0c || b == 0x0d
}

/// Bytes that no interface name may hold: NUL, '/' and ASCII whitespace.
pub open spec fn is_forbidden(b: u8) -> bool {
    b == 0 || b == 0x2f || is_ascii_whitespace(b)
}

/// Whether `bytes` can be an interface name, and if not, why not. The
/// length is judged first, then the bytes.
pub open spec fn name_check(bytes: Seq<u8>) -> Result<(), InvalidInterfaceName> {
    if bytes.len() == 0 {
        Err(InvalidInterfaceName::Empty)
    } else if bytes.len() > IFNAMSIZ - 1 {
        Err(InvalidInterfaceName::TooLong)
    } else if exists|i: int| 0 <= i < bytes.len() && is_forbidden(#[trigger] bytes[i]) {
        Err(InvalidInterfaceName::InvalidChars)
    } else {
        Ok(())
    }
}

/// `n` is where the name in `raw` ends: no NUL before it, a NUL at it.
pub open spec fn ends_at(raw: Seq<u8>, n: int) -> bool {
    &&& 0 <= n <= raw.len()
    &&& forall|i: int| 0 <= i < n ==> #[trigger] raw[i] != 0
    &&& n < raw.len() ==> raw[n] == 0
}

/// A name ends in one place only.
proof fn lemma_ends_at_unique(raw: Seq<u8>, n: int, m: int)
    requires
        ends_at(raw, n),
        ends_at(raw, m),
    ensures
        n == m,
{
    if n < m {
        assert(raw[n] != 0);
    }
    if m < n {
        assert(raw[m] != 0);
    }
}

/// Calls `String::from_utf8_lossy`: bytes that are valid UTF-8 come back as
/// the text they encode. Of other bytes nothing is claimed.
#[verifier::external_body]
fn utf8_lossy(bytes: &[u8]) -> (text: String)
    ensures
        valid_utf8(bytes@) ==> text@ == decode_utf8(bytes@),
{
    String::from_utf8_lossy(bytes).into_owned()
}

/// Tells whether `b` is forbidden in an interface name.
fn forbidden_byte(b: u8) -> (r: bool)
    ensures
        r == is_forbidden(b),
{
    b == 0 || b == 0x2f || b == 0x20 || b == 0x09 || b == 0x0a || b == 0x0c || b == 0x0d
}

impl InvalidInterfaceName {
    /// What to tell the user.
    pub fn message(&self) -> (text: String)
        ensures
            text@ == match *self {
                InvalidInterfaceName::TooLong => {
                    "interface name is longer than system max of 16 chars"@
                },
                InvalidInterfaceName::Empty => "an empty interface name was provided"@,
                InvalidInterfaceName::InvalidChars => {
                    "interface name contained slash or space or nul characters"@
                },
            },
    {
        match self {
            InvalidInterfaceName::TooLong => {
                "interface name is longer than system max of 16 chars".to_owned()
            },
            InvalidInterfaceName::Empty => "an empty interface name was provided".to_owned(),
            InvalidInterfaceName::InvalidChars => {
                "interface name contained slash or space or nul characters".to_owned()
            },
        }
    }
}

impl InterfaceName {
    /// The whole buffer: name and padding.
    pub closed spec fn raw(self) -> Seq<u8> {
        self.0@
    }

    /// Length of the name in bytes.
    pub closed spec fn len(self) -> int {
        choose|n: int| ends_at(self.0@, n)
    }

    /// The name's bytes, without the padding.
    pub closed spec fn name(self) -> Seq<u8> {
        self.0@.take(self.len())
    }

    /// The name as text.
    pub open spec fn text(self) -> Seq<char> {
        decode_utf8(self.name())
    }

    /// Every value holds a valid name: one to fifteen bytes of UTF-8, none
    /// of them forbidden, and NULs behind them.
    #[verifier::type_invariant]
    pub closed spec fn well_formed(self) -> bool {
        let n = self.len();
        &&& ends_at(self.0@, n)
        &&& 1 <= n <= IFNAMSIZ - 1
        &&& forall|i: int| 0 <= i < n ==> !is_forbidden(#[trigger] self.0@[i])
        &&& forall|i: int| n <= i < IFNAMSIZ ==> #[trigger] self.0@[i] == 0
        &&& valid_utf8(self.0@.take(n))
    }

    /// What every interface name is known to satisfy.
    pub proof fn lemma_valid(self)
        requires
            self.well_formed(),
        ensures
            self.raw().len() == IFNAMSIZ,
            self.name() == self.raw().take(self.name().len() as int),
            name_check(self.name()) is Ok,
            valid_utf8(self.name()),
            forall|i: int| self.name().len() <= i < IFNAMSIZ ==> #[trigger] self.raw()[i] == 0,
    {
        let n = self.len();
        assert(self.name().len() == n);
        assert forall|i: int| 0 <= i < self.name().len() implies !is_forbidden(
            #[trigger] self.name()[i],
        ) by {
            assert(self.name()[i] == self.0@[i]);
        }
    }

    /// Attempts to read `s` as the name of a Linux interface.
    ///
    /// The name must hold between one and fifteen bytes, and among them no
    /// NUL, no '/' and no ASCII whitespace.
    pub fn from_str(s: &str) -> (r: Result<InterfaceName, InvalidInterfaceName>)
        ensures
            match r {
                Ok(name) => {
                    &&& name_check(s.spec_bytes()) is Ok
                    &&& name.name() == s.spec_bytes()
                    &&& name.text() == s@
                    &&& name.raw() == s.spec_bytes() + Seq::new(
                        (IFNAMSIZ - s.spec_bytes().len()) as nat,
                        |i: int| 0u8,
                    )
                },
                Err(e) => name_check(s.spec_bytes()) == Err::<(), InvalidInterfaceName>(e),
            },
    {
        let bytes = s.as_bytes();
        let len = bytes.len();
        if len == 0 {
            return Err(InvalidInterfaceName::Empty);
        }
        // Compensate for trailing NUL
        if len > IFNAMSIZ - 1 {
            return Err(InvalidInterfaceName::TooLong);
        }
        let mut buf = [0u8; IFNAMSIZ];
        let mut i: usize = 0;
        while i < len
            invariant
                0 < len <= IFNAMSIZ - 1,
                i <= len == bytes@.len(),
                bytes@ == s.spec_bytes(),
                forall|j: int| 0 <= j < i ==> buf@[j] == bytes@[j],
                forall|j: int| 0 <= j < i ==> !is_forbidden(#[trigger] bytes@[j]),
                forall|j: int| i <= j < IFNAMSIZ ==> buf@[j] == 0,
            decreases len - i,
        {
            let b = bytes[i];
            if forbidden_byte(b) {
                assert(is_forbidden(bytes@[i as int]));
                return Err(InvalidInterfaceName::InvalidChars);
            }
            buf[i] = b;
            i += 1;
        }
        proof {
            let n = len as int;
            assert(buf@.take(n) =~= bytes@);
            assert(ends_at(buf@, n)) by {
                assert forall|j: int| 0 <= j < n implies #[trigger] buf@[j] != 0 by {
                    assert(!is_forbidden(bytes@[j]));
                }
            }
            lemma_ends_at_unique(buf@, n, choose|m: int| ends_at(buf@, m));
            vstd::utf8::encode_utf8_valid_utf8(s@);
            vstd::utf8::encode_utf8_decode_utf8(s@);
            assert forall|j: int| 0 <= j < n implies !is_forbidden(#[trigger] buf@[j]) by {
                assert(!is_forbidden(bytes@[j]));
            }
            assert(buf@ =~= s.spec_bytes() + Seq::new(
                (IFNAMSIZ - s.spec_bytes().len()) as nat,
                |i: int| 0u8,
            ));
        }
        let name = InterfaceName(buf);
        Ok(name)
    }

    /// Returns a human-readable form of the device name.
    pub fn as_str_lossy(&self) -> (text: String)
        ensures
            text@ == self.text(),
    {
        proof {
            use_type_invariant(self);
        }
        let mut n: usize = 0;
        while n < IFNAMSIZ && self.0[n] != 0
            invariant
                n <= IFNAMSIZ,
                forall|j: int| 0 <= j < n ==> #[trigger] self.0@[j] != 0,
            decreases IFNAMSIZ - n,
        {
            n += 1;
        }
        proof {
            lemma_ends_at_unique(self.0@, n as int, self.len());
        }
        let name = slice_subrange(self.0.as_slice(), 0, n);
        assert(name@ =~= self.name());
        utf8_lossy(name)
    }

    /// The buffer to hand to the kernel: the name, padded with NULs.
    pub fn to_raw(&self) -> (raw: [u8; IFNAMSIZ])
        ensures
            raw@ == self.raw(),
    {
        self.0
    }
}

impl core::str::FromStr for InterfaceName {
    type Err = InvalidInterfaceName;

    /// Reads `s` as the name of a Linux interface, as the method of the same
    /// name on the type does: the same names are taken, and the same fault
    /// is found with every other text.
    fn from_str(s: &str) -> (r: Result<Self, Self::Err>)
        ensures
            match r {
                Ok(name) => {
                    &&& name_check(s.spec_bytes()) is Ok
                    &&& name.name() == s.spec_bytes()
                    &&& name.text() == s@
                    &&& name.raw() == s.spec_bytes() + Seq::new(
                        (IFNAMSIZ - s.spec_bytes().len()) as nat,
                        |i: int| 0u8,
                    )
                },
                Err(e) => name_check(s.spec_bytes()) == Err::<(), InvalidInterfaceName>(e),
            },
    {
        InterfaceName::from_str(s)
    }
}

} // verus!
