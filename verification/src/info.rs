//! Decoding of an event's auxiliary words into an info string.
//!
//! Class-specific rich decoders are an extension point this taxonomy does
//! not fill yet; the default rendering formats every present auxiliary
//! word as `0x` plus 8 uppercase hexadecimal digits and joins them with
//! `", "`.  Absent words are skipped, not rendered as placeholders.

use vstd::prelude::*;

use crate::record::Event;
use crate::text::{hex_word, spec_hex_word};

verus! {

/// The auxiliary words that are present, in order, with the absent slots
/// dropped.
pub open spec fn spec_present_words(extra: Seq<Option<u32>>) -> Seq<u32>
    decreases extra.len(),
{
    if extra.len() == 0 {
        seq![]
    } else {
        let rest = spec_present_words(extra.drop_last());
        match extra.last() {
            Some(v) => rest.push(v),
            None => rest,
        }
    }
}

/// The words rendered in hexadecimal and joined with `", "`.
pub open spec fn spec_joined_words(words: Seq<u32>) -> Seq<char>
    decreases words.len(),
{
    if words.len() == 0 {
        seq![]
    } else if words.len() == 1 {
        spec_hex_word(words[0])
    } else {
        spec_joined_words(words.drop_last()) + ", "@ + spec_hex_word(words.last())
    }
}

/// The info string of an event: its present auxiliary words in
/// hexadecimal, joined with `", "`.
pub open spec fn spec_record_info(extra: Seq<Option<u32>>) -> Seq<char> {
    spec_joined_words(spec_present_words(extra))
}

/// Renders the info string of an event.  Total: an event with no present
/// auxiliary words yields the empty string.
pub fn get_record_info(event: &Event) -> (r: String)
    ensures
        r@ == spec_record_info(event.extra@),
{
    let ghost all = event.extra@;
    let mut out = String::new();
    let mut count: usize = 0;
    let mut i: usize = 0;
    while i < 7
        invariant
            i <= 7,
            count <= i,
            all == event.extra@,
            all.len() == 7,
            count == spec_present_words(all.take(i as int)).len(),
            out@ == spec_joined_words(spec_present_words(all.take(i as int))),
        decreases 7 - i,
    {
        let ghost prefix = spec_present_words(all.take(i as int));
        match event.extra[i] {
            Some(v) => {
                if count > 0 {
                    out.append(", ");
                }
                let word = hex_word(v);
                out.append(word.as_str());
                count = count + 1;
            },
            None => {},
        }
        proof {
            assert(all.take(i + 1 as int).drop_last() =~= all.take(i as int));
            assert(all.take(i + 1 as int).last() == all[i as int]);
            if all[i as int] is Some {
                let v = all[i as int]->0;
                assert(spec_present_words(all.take(i + 1 as int)) == prefix.push(v));
                if prefix.len() > 0 {
                    assert(prefix.push(v).drop_last() =~= prefix);
                    assert(out@ == spec_joined_words(prefix.push(v)));
                } else {
                    assert(prefix.push(v).len() == 1);
                    assert(out@ =~= spec_joined_words(prefix.push(v)));
                }
            }
        }
        i = i + 1;
    }
    proof {
        assert(all.take(7) =~= all);
    }
    out
}

} // verus!
