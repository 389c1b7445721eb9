//! The target architecture a kernel image is built for, and the rules that
//! resolve it from a command-line value or from the kernel's file name.

use vstd::prelude::*;

verus! {

/// Execution mode the pushed kernel expects on the target.
#[derive(Clone, Copy, PartialEq, Eq, Debug)]
pub enum Arch {
    AArch32,
    AArch64,
}

impl Arch {
    /// The single-byte code that travels in the transfer header: the literal
    /// decimal value 32 or 64, so the bootloader can branch on it directly.
    pub open spec fn code_spec(self) -> u8 {
        match self {
            Arch::AArch32 => 32,
            Arch::AArch64 => 64,
        }
    }

    /// Architecture code as sent on the wire.
    pub fn code(self) -> (c: u8)
        ensures
            c == self.code_spec(),
            c == 32 || c == 64,
    {
        match self {
            Arch::AArch32 => 32,
            Arch::AArch64 => 64,
        }
    }
}

/// Whether `needle` occurs as a contiguous run of characters inside `hay`.
pub open spec fn contains_seq(hay: Seq<char>, needle: Seq<char>) -> bool {
    exists|i: int|
        0 <= i && i + needle.len() <= hay.len() && #[trigger] hay.subrange(
            i,
            i + needle.len() as int,
        ) == needle
}

/// Whether `needle` occurs in `hay` starting at position `i`.
fn matches_at(hay: &str, needle: &str, i: usize, hay_len: usize, needle_len: usize) -> (r: bool)
    requires
        hay_len == hay@.len(),
        needle_len == needle@.len(),
        i + needle_len <= hay_len,
    ensures
        r == (hay@.subrange(i as int, i + needle@.len()) == needle@),
{
    let mut j: usize = 0;
    while j < needle_len
        invariant
            0 <= j <= needle_len,
            hay_len == hay@.len(),
            needle_len == needle@.len(),
            i + needle_len <= hay_len,
            forall|k: int| 0 <= k < j ==> hay@[i + k] == needle@[k],
        decreases needle_len - j,
    {
        if hay.get_char(i + j) != needle.get_char(j) {
            proof {
                assert(hay@.subrange(i as int, i + needle@.len())[j as int] == hay@[i + j]);
            }
            return false;
        }
        j = j + 1;
    }
    proof {
        assert(hay@.subrange(i as int, i + needle@.len()) =~= needle@);
    }
    true
}

/// Whether `needle` occurs anywhere in `hay`, as the characters of both.
pub fn str_contains(hay: &str, needle: &str) -> (r: bool)
    ensures
        r == contains_seq(hay@, needle@),
{
    let hay_len: usize = hay.unicode_len();
    let needle_len: usize = needle.unicode_len();
    if needle_len > hay_len {
        proof {
            assert(!contains_seq(hay@, needle@));
        }
        return false;
    }
    if needle_len == 0 {
        proof {
            assert(hay@.subrange(0, 0 + needle@.len() as int) == needle@) by {
                assert(hay@.subrange(0, 0) =~= needle@);
            }
            assert(contains_seq(hay@, needle@));
        }
        return true;
    }
    let positions: usize = hay_len - needle_len + 1;
    let mut i: usize = 0;
    while i < positions
        invariant
            0 <= i <= positions,
            positions == hay_len - needle_len + 1,
            1 <= needle_len <= hay_len,
            hay_len == hay@.len(),
            needle_len == needle@.len(),
            forall|k: int|
                0 <= k < i ==> #[trigger] hay@.subrange(k, k + needle@.len() as int) != needle@,
        decreases positions - i,
    {
        if matches_at(hay, needle, i, hay_len, needle_len) {
            return true;
        }
        i = i + 1;
    }
    proof {
        assert(!contains_seq(hay@, needle@));
    }
    false
}

/// Resolves the architecture from the kernel's file name: a name that
/// mentions `kernel7.img` is a 32-bit kernel, one that mentions
/// `kernel8.img` a 64-bit kernel; any other name resolves nothing.
pub fn arch_from_filename(filename: &str) -> (r: Option<Arch>)
    ensures
        r == if contains_seq(filename@, "kernel7.img"@) {
            Some(Arch::AArch32)
        } else if contains_seq(filename@, "kernel8.img"@) {
            Some(Arch::AArch64)
        } else {
            None::<Arch>
        },
{
    if str_contains(filename, "kernel7.img") {
        Some(Arch::AArch32)
    } else if str_contains(filename, "kernel8.img") {
        Some(Arch::AArch64)
    } else {
        None
    }
}

/// Resolves the architecture from a command-line value: exactly `32` or
/// `64`; anything else resolves nothing.
pub fn arch_from_arg(value: &str) -> (r: Option<Arch>)
    ensures
        r == if value@ == "32"@ {
            Some(Arch::AArch32)
        } else if value@ == "64"@ {
            Some(Arch::AArch64)
        } else {
            None::<Arch>
        },
{
    proof {
        reveal_strlit("32");
        reveal_strlit("64");
    }
    let len: usize = value.unicode_len();
    if len == 2 {
        let c0 = value.get_char(0);
        let c1 = value.get_char(1);
        proof {
            assert(value@ == "32"@ ==> c0 == '3' && c1 == '2');
            assert(value@ == "64"@ ==> c0 == '6' && c1 == '4');
            assert(len == 2 && c0 == '3' && c1 == '2' ==> value@ =~= "32"@);
            assert(len == 2 && c0 == '6' && c1 == '4' ==> value@ =~= "64"@);
        }
        if c0 == '3' && c1 == '2' {
            Some(Arch::AArch32)
        } else if c0 == '6' && c1 == '4' {
            Some(Arch::AArch64)
        } else {
            None
        }
    } else {
        proof {
            assert(value@ != "32"@ && value@ != "64"@);
        }
        None
    }
}

} // verus!
