use vstd::prelude::*;

use crate::ascii::DASH;
use crate::ascii::LOWER_D;
use crate::ascii::LOWER_L;
use crate::ascii::LOWER_R;
use crate::ascii::LOWER_W;
use crate::ascii::LOWER_X;
use crate::ascii::NEWLINE;
use crate::pane::lemma_filter_take_step;
use crate::pane::EntryKind;

verus! {

/// The byte shown for one permission bit: the given letter when the bit is
/// set in the mode, a dash otherwise.
pub open spec fn flag_byte(mode: u32, mask: u32, letter: u8) -> u8 {
    if mode & mask != 0 {
        letter
    } else {
        DASH
    }
}

/// The nine `rwx` bytes of a Unix mode word, owner then group then other.
pub open spec fn rwx_model(mode: u32) -> Seq<u8> {
    seq![
        flag_byte(mode, 0x100, LOWER_R),
        flag_byte(mode, 0x080, LOWER_W),
        flag_byte(mode, 0x040, LOWER_X),
        flag_byte(mode, 0x020, LOWER_R),
        flag_byte(mode, 0x010, LOWER_W),
        flag_byte(mode, 0x008, LOWER_X),
        flag_byte(mode, 0x004, LOWER_R),
        flag_byte(mode, 0x002, LOWER_W),
        flag_byte(mode, 0x001, LOWER_X),
    ]
}

/// The byte that opens a permission string: `d` for a directory, `l` for a
/// symbolic link, a dash for everything else.
pub open spec fn type_byte(kind: EntryKind) -> u8 {
    match kind {
        EntryKind::Directory => LOWER_D,
        EntryKind::Symlink => LOWER_L,
        _ => DASH,
    }
}

/// The full ten-byte permission string of an entry.
pub open spec fn permission_model(kind: EntryKind, mode: u32) -> Seq<u8> {
    seq![type_byte(kind)] + rwx_model(mode)
}

fn push_flag(out: &mut Vec<u8>, mode: u32, mask: u32, letter: u8)
    ensures
        final(out)@ == old(out)@.push(flag_byte(mode, mask, letter)),
{
    if mode & mask != 0 {
        out.push(letter);
    } else {
        out.push(DASH);
    }
}

/// Render the nine `rwx` bytes of a mode word.
pub fn format_permissions(mode: u32) -> (r: Vec<u8>)
    ensures
        r@ == rwx_model(mode),
{
    let mut out: Vec<u8> = Vec::new();
    push_flag(&mut out, mode, 0x100, LOWER_R);
    push_flag(&mut out, mode, 0x080, LOWER_W);
    push_flag(&mut out, mode, 0x040, LOWER_X);
    push_flag(&mut out, mode, 0x020, LOWER_R);
    push_flag(&mut out, mode, 0x010, LOWER_W);
    push_flag(&mut out, mode, 0x008, LOWER_X);
    push_flag(&mut out, mode, 0x004, LOWER_R);
    push_flag(&mut out, mode, 0x002, LOWER_W);
    push_flag(&mut out, mode, 0x001, LOWER_X);
    proof {
        assert(out@ =~= rwx_model(mode));
    }
    out
}

/// Render the full permission string: the type byte, then the mode bits.
pub fn permission_string(kind: EntryKind, mode: u32) -> (r: Vec<u8>)
    ensures
        r@ == permission_model(kind, mode),
{
    let mut out: Vec<u8> = Vec::new();
    if kind == EntryKind::Directory {
        out.push(LOWER_D);
    } else if kind == EntryKind::Symlink {
        out.push(LOWER_L);
    } else {
        out.push(DASH);
    }
    let mut rest = format_permissions(mode);
    out.append(&mut rest);
    proof {
        assert(out@ =~= permission_model(kind, mode));
    }
    out
}

pub open spec fn is_newline(b: u8) -> bool {
    b == NEWLINE
}

/// How many lines a byte buffer holds, counting as text viewers do: a
/// trailing newline closes the last line instead of opening an empty one,
/// and an empty buffer has no lines.
pub open spec fn line_count_model(s: Seq<u8>) -> nat {
    if s.len() == 0 {
        0
    } else {
        (s.filter(|b: u8| is_newline(b)).len() + if is_newline(s.last()) {
            0nat
        } else {
            1nat
        }) as nat
    }
}

/// Count the lines of a byte buffer.
pub fn count_lines(s: &Vec<u8>) -> (r: usize)
    ensures
        r == line_count_model(s@),
{
    let mut newlines: usize = 0;
    let mut i: usize = 0;
    while i < s.len()
        invariant
            i <= s.len(),
            newlines == s@.take(i as int).filter(|b: u8| is_newline(b)).len(),
            newlines <= i,
        decreases s.len() - i,
    {
        proof {
            lemma_filter_take_step(s@, |b: u8| is_newline(b), i as int);
        }
        if s[i] == NEWLINE {
            newlines = newlines + 1;
        }
        i = i + 1;
    }
    proof {
        assert(s@.take(s@.len() as int) =~= s@);
    }
    if s.len() == 0 {
        0
    } else if s[s.len() - 1] == NEWLINE {
        newlines
    } else {
        proof {
            let whole = s@;
            let pred = |b: u8| is_newline(b);
            lemma_filter_take_step(whole, pred, whole.len() - 1);
            assert(whole.take(whole.len() as int) =~= whole);
            assert(!pred(whole[whole.len() - 1]));
            assert(whole.filter(pred) == whole.take(whole.len() - 1).filter(pred));
            whole.take(whole.len() - 1).lemma_filter_len(pred);
        }
        newlines + 1
    }
}

} // verus!
