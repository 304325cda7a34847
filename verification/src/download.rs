//! Naming downloaded episode files.

use vstd::prelude::*;
use crate::text::{chars_of, push_char};

verus! {

/// Whether `char::is_alphanumeric` holds of `c` (Unicode letters and numbers).
pub uninterp spec fn alphanumeric(c: char) -> bool;

/// `char::is_alphanumeric`. The contract names the result and, for ASCII,
/// states it: exactly the letters and the digits.
#[verifier::external_body]
fn is_alphanumeric(c: char) -> (r: bool)
    ensures
        r == alphanumeric(c),
        (c as u32) < 128 ==> (r <==> ascii_alphanumeric(c)),
{
    c.is_alphanumeric()
}

/// The character kept in a file name for `c`: itself when alphanumeric or `-`,
/// else `-`.
pub open spec fn slug_char(c: char) -> char {
    if alphanumeric(c) || c == '-' {
        c
    } else {
        '-'
    }
}

/// Every character of `title` as `slug_char` makes it.
pub open spec fn slug_chars(title: Seq<char>) -> Seq<char> {
    title.map_values(|c: char| slug_char(c))
}

/// At most the first eighty characters of `title`, each as `slug_char` makes it.
pub open spec fn slug(title: Seq<char>) -> Seq<char> {
    let m = slug_chars(title);
    if m.len() <= 80 {
        m
    } else {
        m.take(80)
    }
}

/// Whether `c` is an ASCII letter or digit.
pub open spec fn ascii_alphanumeric(c: char) -> bool {
    48 <= (c as u32) <= 57 || 65 <= (c as u32) <= 90 || 97 <= (c as u32) <= 122
}

/// What an ASCII character becomes in a file name: itself when it is a
/// letter, a digit or `-`, else `-`.
pub open spec fn ascii_slug_char(c: char) -> char {
    if ascii_alphanumeric(c) || c == '-' {
        c
    } else {
        '-'
    }
}

/// The file name an episode is downloaded to: its slug with `.mp3`.
pub open spec fn file_name_for(title: Seq<char>) -> Seq<char> {
    slug(title) + seq!['.', 'm', 'p', '3']
}

/// The file name under which an episode titled `title` is stored.
/// Among the first eighty characters of the title, an ASCII one becomes
/// itself when it is a letter, a digit or `-`, and `-` otherwise; so the name
/// holds no `/`, `\`, NUL or `.` before its `.mp3`, and cannot leave the
/// directory it is put in.
pub fn safe_filename(title: &str) -> (r: String)
    ensures
        r@ == file_name_for(title@),
        forall|i: int|
            0 <= i < slug(title@).len() && (title@[i] as u32) < 128 ==> #[trigger] slug(title@)[i]
                == ascii_slug_char(title@[i]),
        forall|i: int|
            0 <= i < r@.len() - 4 ==> #[trigger] r@[i] != '/' && r@[i] != '\\' && r@[i] != '\0' && r@[i]
                != '.',
{
    let v = chars_of(title);
    let ghost m = slug_chars(title@);
    let mut r = String::new();
    let mut i: usize = 0;
    while i < v.len() && i < 80
        invariant
            v@ == title@,
            m == slug_chars(title@),
            i <= v.len(),
            i <= 80,
            r@ == m.take(i as int),
            forall|k: int| 0 <= k < i && (title@[k] as u32) < 128 ==> #[trigger] m[k] == ascii_slug_char(title@[k]),
            forall|k: int| 0 <= k < i ==> #[trigger] m[k] != '/' && m[k] != '\\' && m[k] != '\0' && m[k] != '.',
        decreases v.len() - i,
    {
        let c = v[i];
        let k = if is_alphanumeric(c) || c == '-' {
            c
        } else {
            '-'
        };
        push_char(&mut r, k);
        assert(m.take(i + 1) == m.take(i as int).push(m[i as int]));
        i = i + 1;
    }
    assert(m.len() == v@.len());
    assert forall|k: int| 0 <= k < slug(title@).len() implies #[trigger] slug(title@)[k] == m[k] by {}
    assert(r@ == slug(title@)) by {
        if m.len() <= 80 {
            assert(m.take(m.len() as int) == m);
        }
    }
    push_char(&mut r, '.');
    push_char(&mut r, 'm');
    push_char(&mut r, 'p');
    push_char(&mut r, '3');
    r
}

} // verus!
