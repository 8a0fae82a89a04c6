//! The picture formats the engine can rewrite, told apart by file extension.

use vstd::prelude::*;
use vstd::string::*;

verus! {

/// A format the engine has a strategy for.
#[derive(Clone, Copy, Debug, PartialEq, Eq, Structural)]
pub enum ImageKind {
    Jpeg,
    Png,
}

/// The lower-case form of an ASCII capital; every other character is left as it is.
pub open spec fn lowered(c: char) -> char {
    if 'A' <= c <= 'Z' {
        ((c as u8) + 32) as char
    } else {
        c
    }
}

/// `word` reads as `name` once letter case is ignored. `name` is expected in lower case.
pub open spec fn reads_as(word: Seq<char>, name: Seq<char>) -> bool {
    &&& word.len() == name.len()
    &&& forall|i: int| 0 <= i < word.len() ==> lowered(#[trigger] word[i]) == name[i]
}

/// The format an extension declares: `jpg` and `jpeg` are JPEG, `png` is PNG, in any letter
/// case; anything else declares no format the engine knows.
pub open spec fn kind_of(extension: Seq<char>) -> Option<ImageKind> {
    if reads_as(extension, seq!['j', 'p', 'g']) || reads_as(extension, seq!['j', 'p', 'e', 'g']) {
        Some(ImageKind::Jpeg)
    } else if reads_as(extension, seq!['p', 'n', 'g']) {
        Some(ImageKind::Png)
    } else {
        None
    }
}

fn lowered_byte(byte: u8) -> (lower: u8)
    ensures
        lower == if 65 <= byte <= 90 {
            (byte + 32) as u8
        } else {
            byte
        },
{
    if 65 <= byte && byte <= 90 {
        byte + 32
    } else {
        byte
    }
}

/// Compares an extension with a lower-case ASCII name, ignoring letter case.
fn matches_name(extension: &str, name: &str) -> (same: bool)
    requires
        is_ascii(name),
    ensures
        same == reads_as(extension@, name@),
{
    if !extension.is_ascii() {
        proof {
            if reads_as(extension@, name@) {
                let i = choose|i: int|
                    0 <= i < extension@.len() && !('\0' <= #[trigger] extension@[i] <= '\u{7f}');
                assert(lowered(extension@[i]) == name@[i]);
            }
        }
        return false;
    }
    proof {
        is_ascii_spec_bytes(extension);
        is_ascii_spec_bytes(name);
    }
    let length = name.as_bytes().len();
    if extension.as_bytes().len() != length {
        return false;
    }
    let mut index: usize = 0;
    while index < length
        invariant
            is_ascii(extension),
            is_ascii(name),
            length == name@.len(),
            length == extension@.len(),
            index <= length,
            forall|i: int| 0 <= i < index ==> lowered(#[trigger] extension@[i]) == name@[i],
        decreases length - index,
    {
        let given = extension.get_ascii(index);
        let wanted = name.get_ascii(index);
        if lowered_byte(given) != wanted {
            proof {
                let c = extension@[index as int];
                assert('\0' <= c <= '\u{7f}');
                assert('\0' <= name@[index as int] <= '\u{7f}');
                assert(lowered(c) != name@[index as int]);
            }
            return false;
        }
        proof {
            let c = extension@[index as int];
            assert('\0' <= c <= '\u{7f}');
            assert('\0' <= name@[index as int] <= '\u{7f}');
            assert(lowered(c) == name@[index as int]);
        }
        index += 1;
    }
    true
}

/// Tells which format a file extension (without its dot) declares.
pub fn kind_of_extension(extension: &str) -> (kind: Option<ImageKind>)
    ensures
        kind == kind_of(extension@),
{
    proof {
        reveal_strlit("jpg");
        reveal_strlit("jpeg");
        reveal_strlit("png");
        assert("jpg"@ =~= seq!['j', 'p', 'g']);
        assert("jpeg"@ =~= seq!['j', 'p', 'e', 'g']);
        assert("png"@ =~= seq!['p', 'n', 'g']);
    }
    if matches_name(extension, "jpg") || matches_name(extension, "jpeg") {
        Some(ImageKind::Jpeg)
    } else if matches_name(extension, "png") {
        Some(ImageKind::Png)
    } else {
        None
    }
}

} // verus!
