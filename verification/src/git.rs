//! Helpers for what git prints.

use vstd::prelude::*;
use crate::scan::char_position;
use crate::scan::contains_text;
use crate::scan::find_char;
use crate::scan::find_chars;
use crate::scan::first_match;
use crate::scan::lemma_first_match;
use crate::strings::chars_of;
use crate::strings::string_of_range;

verus! {

/// `url` with the credentials taken out: where an `@` follows the `://`
/// before the next slash, what lies between the two is replaced by `***`.
pub open spec fn redacted(url: Seq<char>) -> Seq<char> {
    if contains_text(url, "://"@) {
        let start = first_match(url, "://"@) + 3;
        let at = char_position(url, '@', start);
        let slash = char_position(url, '/', start);
        if at < slash {
            url.take(start) + "***"@ + url.skip(at)
        } else {
            url
        }
    } else {
        url
    }
}

/// Takes the credentials out of a remote's address, so that it can be
/// shown.
pub fn redact_credentials(url: &str) -> (r: String)
    ensures
        r@ == redacted(url@),
{
    let chars = chars_of(url);
    let pat = chars_of("://");
    proof {
        reveal_strlit("://");
    }
    match find_chars(&chars, &pat, 0) {
        None => url.to_owned(),
        Some(i) => {
            proof {
                lemma_first_match(url@, "://"@, i as int);
            }
            assert(pat@.len() == 3);
            assert(i + 3 <= chars.len());
            let start = i + 3;
            let at = find_char(&chars, '@', start);
            let slash = find_char(&chars, '/', start);
            if at < slash {
                let mut r = string_of_range(&chars, 0, start);
                r.append("***");
                r.append(string_of_range(&chars, at, chars.len()).as_str());
                assert(chars@.subrange(0, start as int) =~= url@.take(start as int));
                assert(chars@.subrange(at as int, chars.len() as int) =~= url@.skip(at as int));
                r
            } else {
                url.to_owned()
            }
        },
    }
}

} // verus!
