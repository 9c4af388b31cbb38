//! Layout arithmetic of the terminal client.

use vstd::prelude::*;
use vstd::string::StringSliceAdditionalSpecFns;
use vstd::utf8::{decode_utf8, encode_utf8, is_ascii_chars, is_char_boundary};
use crate::constants::WIDE_THRESHOLD;
use crate::text::push_char;

verus! {

/// Wide layout (logs beside the filter sidebar) above `WIDE_THRESHOLD` columns.
pub fn is_wide(width: u16) -> (r: bool)
    ensures
        r == (width > WIDE_THRESHOLD),
{
    width > WIDE_THRESHOLD
}

/// `a - b`, stopping at zero.
pub open spec fn sat_sub(a: int, b: int) -> int {
    if a > b {
        a - b
    } else {
        0
    }
}

/// First visible line: the scroll position sits on the last of `height` lines.
pub open spec fn first_visible(scroll: usize, height: usize) -> int {
    sat_sub(scroll as int, sat_sub(height as int, 1))
}

/// The range of filtered lines shown in a log pane of `height` lines, when
/// the scroll position sits on its last line: from `scroll - (height - 1)`
/// (or 0) for `height` lines, cut at `total`. A range that would start past
/// `total` is empty, at `total`.
pub fn visible_range(scroll: usize, height: usize, total: usize) -> (r: (usize, usize))
    ensures
        r.0 == if first_visible(scroll, height) <= total {
            first_visible(scroll, height)
        } else {
            total as int
        },
        r.1 == if first_visible(scroll, height) + height < total {
            first_visible(scroll, height) + height
        } else {
            total as int
        },
        r.0 <= r.1,
{
    let back = if height > 0 {
        height - 1
    } else {
        0
    };
    let start = if scroll > back {
        scroll - back
    } else {
        0
    };
    if start > total {
        return (total, total);
    }
    let end = if height < total - start {
        start + height
    } else {
        total
    };
    (start, end)
}

/// The mode popup: at most 48 by 14 cells, keeping a 2-cell margin, centred.
pub fn popup_area(width: u16, height: u16) -> (r: (u16, u16, u16, u16))
    ensures
        r.2 == if sat_sub(width as int, 4) < 48 {
            sat_sub(width as int, 4)
        } else {
            48
        },
        r.3 == if sat_sub(height as int, 4) < 14 {
            sat_sub(height as int, 4)
        } else {
            14
        },
        r.0 == sat_sub(width as int, r.2 as int) / 2,
        r.1 == sat_sub(height as int, r.3 as int) / 2,
{
    let avail_w: u16 = if width > 4 {
        width - 4
    } else {
        0
    };
    let avail_h: u16 = if height > 4 {
        height - 4
    } else {
        0
    };
    let w: u16 = if avail_w < 48 {
        avail_w
    } else {
        48
    };
    let h: u16 = if avail_h < 14 {
        avail_h
    } else {
        14
    };
    let x: u16 = if width > w {
        (width - w) / 2
    } else {
        0
    };
    let y: u16 = if height > h {
        (height - h) / 2
    } else {
        0
    };
    (x, y, w, h)
}

/// `n` spaces.
pub open spec fn spaces(n: nat) -> Seq<char> {
    Seq::new(n, |i: int| ' ')
}

/// Where text longer than `width` bytes is cut: three bytes earlier when
/// there is room for "...".
pub open spec fn cut_at(width: usize) -> int {
    if width > 3 {
        width - 3
    } else {
        width as int
    }
}

/// Text fitted to a column of `width`: when its UTF-8 length, as a `usize`,
/// is at most `width`, it is padded with spaces to `width` characters; otherwise it is cut
/// to its first `width - 3` bytes followed by "..." (or to `width` bytes when
/// `width` is 3 or less).
pub open spec fn spec_pad_or_truncate(s: &str, width: usize) -> Seq<char> {
    let b = s.spec_bytes();
    if (b.len() as usize) <= width {
        s@ + spaces(sat_sub(width as int, s@.len() as int) as nat)
    } else if width > 3 {
        decode_utf8(b.take(cut_at(width))) + "..."@
    } else {
        decode_utf8(b.take(cut_at(width)))
    }
}

/// Fits text to a column. Cutting inside a character is left out: the cut
/// must fall on a character boundary.
pub fn pad_or_truncate(s: &str, width: usize) -> (r: String)
    requires
        (s.spec_bytes().len() as usize) > width ==> is_char_boundary(s.spec_bytes(), cut_at(width)),
    ensures
        r@ == spec_pad_or_truncate(s, width),
{
    broadcast use vstd::utf8::encode_utf8_decode_utf8;

    if s.len() <= width {
        let chars = s.unicode_len();
        let mut out = s.to_owned();
        let mut i: usize = chars;
        while i < width
            invariant
                chars == s@.len(),
                chars <= i <= width || (i == chars && chars > width),
                out@ == s@ + spaces((i - chars) as nat),
            decreases width - i,
        {
            push_char(&mut out, ' ');
            assert(s@ + spaces((i + 1 - chars) as nat) =~= (s@ + spaces((i - chars) as nat)).push(' '));
            i = i + 1;
        }
        proof {
            if chars > width {
                assert(spaces(0) =~= Seq::<char>::empty());
            }
        }
        out
    } else {
        let cut: usize = if width > 3 {
            width - 3
        } else {
            width
        };
        let (head, _) = s.split_at(cut);
        proof {
            assert(head.spec_bytes() =~= s.spec_bytes().subrange(0, cut as int));
            assert(s.spec_bytes().take(cut as int) =~= s.spec_bytes().subrange(0, cut as int));
        }
        let mut out = head.to_owned();
        if width > 3 {
            out.append("...");
        }
        out
    }
}

/// Encoding never makes text shorter.
proof fn lemma_encode_utf8_len(chars: Seq<char>)
    ensures
        encode_utf8(chars).len() >= chars.len(),
    decreases chars.len(),
{
    if chars.len() > 0 {
        lemma_encode_utf8_len(chars.drop_first());
    }
}

/// A prefix of ASCII text decodes from the same prefix of its bytes.
proof fn lemma_ascii_prefix(chars: Seq<char>, k: int)
    requires
        is_ascii_chars(chars),
        0 <= k <= chars.len(),
    ensures
        decode_utf8(encode_utf8(chars).take(k)) == chars.take(k),
{
    let p = chars.take(k);
    assert(is_ascii_chars(p));
    vstd::utf8::is_ascii_chars_encode_utf8(chars);
    vstd::utf8::is_ascii_chars_encode_utf8(p);
    assert(encode_utf8(chars).take(k) =~= encode_utf8(p));
    vstd::utf8::encode_utf8_decode_utf8(p);
}

/// Fitting text to a column gives exactly `width` characters when the text
/// is padded, and when ASCII text is cut. (Text cut inside its multi-byte
/// characters comes out shorter.)
pub proof fn lemma_pad_or_truncate_width(s: &str, width: usize)
    requires
        s.spec_bytes().len() <= usize::MAX,
        is_ascii_chars(s@) || s.spec_bytes().len() <= width,
    ensures
        spec_pad_or_truncate(s, width).len() == width,
{
    let b = s.spec_bytes();
    lemma_encode_utf8_len(s@);
    assert((b.len() as usize) == b.len());
    if b.len() > width {
        vstd::utf8::is_ascii_chars_encode_utf8(s@);
        lemma_ascii_prefix(s@, cut_at(width));
        reveal_strlit("...");
    }
}

} // verus!
