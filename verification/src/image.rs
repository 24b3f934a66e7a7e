//! The text form of an image: the plain portable pixmap.

use crate::common::decimal::{numeral, push_numeral};
use vstd::prelude::*;
use vstd::string::StringExecFns;

verus! {

/// The header of a plain pixmap of the given size with channel levels up to
/// 255: the line `P3`, the width and height separated by a space, the line
/// `255`.
pub open spec fn header_text(width: u32, height: u32) -> Seq<char> {
    seq!['P', '3', '\n'] + numeral(width as nat) + seq![' '] + numeral(height as nat) + seq![
        '\n',
        '2',
        '5',
        '5',
        '\n',
    ]
}

/// The header that opens the image file. The pixels follow it one line each
/// (see `Vec3::get_color_buf`), row by row from the top, each row from the
/// left.
pub fn ppm_header(width: u32, height: u32) -> (header: String)
    ensures
        header@ == header_text(width, height),
{
    let mut header = String::from_str("P3\n");
    push_numeral(&mut header, width);
    header.append(" ");
    push_numeral(&mut header, height);
    header.append("\n255\n");
    proof {
        reveal_strlit("P3\n");
        reveal_strlit(" ");
        reveal_strlit("\n255\n");
        assert("P3\n"@ =~= seq!['P', '3', '\n']);
        assert(" "@ =~= seq![' ']);
        assert("\n255\n"@ =~= seq!['\n', '2', '5', '5', '\n']);
    }
    assert(header@ =~= header_text(width, height));
    header
}

} // verus!
