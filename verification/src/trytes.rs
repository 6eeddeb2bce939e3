//! Support for the legacy fetch of raw trytes by hash: validation of the hash
//! array and the exact request body for the single round-trip exchange. The
//! network transport itself is the caller's concern.

use vstd::prelude::*;

use vstd::string::StringExecFns;

verus! {

/// The character belongs to the tryte alphabet.
pub open spec fn is_tryte_char(c: char) -> bool {
    c == '9' || ('A' <= c && c <= 'Z')
}

/// The sequence is a legacy hash: exactly 81 tryte characters.
pub open spec fn is_hash(s: Seq<char>) -> bool {
    s.len() == 81 && forall|i: int| 0 <= i < s.len() ==> is_tryte_char(#[trigger] s[i])
}

/// Every element of the array is a legacy hash.
pub open spec fn spec_is_array_of_hashes(hs: Seq<Seq<char>>) -> bool {
    forall|i: int| 0 <= i < hs.len() ==> is_hash(#[trigger] hs[i])
}

/// Checks that every string in the array is exactly 81 tryte characters.
pub fn is_array_of_hashes(hashes: &Vec<String>) -> (r: bool)
    ensures
        r == spec_is_array_of_hashes(hashes.deep_view()),
{
    let n = hashes.len();
    let mut i: usize = 0;
    while i < n
        invariant
            i <= n,
            n == hashes@.len(),
            forall|k: int| 0 <= k < i ==> is_hash(#[trigger] hashes.deep_view()[k]),
        decreases n - i,
    {
        let h = hashes[i].as_str();
        proof {
            assert(hashes.deep_view()[i as int] == hashes@[i as int]@);
        }
        let len = h.unicode_len();
        if len != 81 {
            assert(!is_hash(hashes.deep_view()[i as int]));
            return false;
        }
        let mut j: usize = 0;
        while j < len
            invariant
                j <= len,
                len == h@.len(),
                len == 81,
                i < hashes@.len(),
                h@ == hashes.deep_view()[i as int],
                forall|k: int| 0 <= k < j ==> is_tryte_char(#[trigger] h@[k]),
            decreases len - j,
        {
            let c = h.get_char(j);
            let u = c as u32;
            if !(u == 57 || (65 <= u && u <= 90)) {
                assert(!is_tryte_char(h@[j as int]));
                assert(!is_hash(hashes.deep_view()[i as int]));
                return false;
            }
            j += 1;
        }
        assert(is_hash(hashes.deep_view()[i as int]));
        i += 1;
    }
    true
}

/// A hash rendered as a quoted literal inside the request body.
pub open spec fn spec_quoted(h: Seq<char>) -> Seq<char> {
    "\""@ + h + "\""@
}

/// The rendering of every hash after the first: a comma before each.
pub open spec fn spec_join_rest(hs: Seq<Seq<char>>) -> Seq<char>
    decreases hs.len(),
{
    if hs.len() == 0 {
        Seq::<char>::empty()
    } else {
        ","@ + spec_quoted(hs[0]) + spec_join_rest(hs.drop_first())
    }
}

/// The comma-separated rendering of the quoted hashes.
pub open spec fn spec_joined(hs: Seq<Seq<char>>) -> Seq<char> {
    if hs.len() == 0 {
        Seq::<char>::empty()
    } else {
        spec_quoted(hs[0]) + spec_join_rest(hs.drop_first())
    }
}

/// The exact request body of the legacy fetch: the command name and the hash
/// array, as one document.
pub open spec fn spec_get_trytes_body(hs: Seq<Seq<char>>) -> Seq<char> {
    "{\"command\":\"getTrytes\",\"hashes\":["@ + spec_joined(hs) + "]}"@
}

/// Builds the request body for fetching the given hashes. The hashes are
/// required to be well-formed, so no character of the body needs escaping.
pub fn get_trytes_command_body(hashes: &Vec<String>) -> (r: String)
    requires
        spec_is_array_of_hashes(hashes.deep_view()),
    ensures
        r@ == spec_get_trytes_body(hashes.deep_view()),
{
    let ghost hs = hashes.deep_view();
    let mut r = String::from_str("{\"command\":\"getTrytes\",\"hashes\":[");
    let n = hashes.len();
    if n > 0 {
        r.append("\"");
        r.append(hashes[0].as_str());
        r.append("\"");
        proof {
            assert(hs.skip(1) =~= hs.drop_first());
            assert(r@ =~= "{\"command\":\"getTrytes\",\"hashes\":["@ + spec_quoted(hs[0]));
        }
        let mut i: usize = 1;
        while i < n
            invariant
                1 <= i <= n,
                n == hs.len(),
                hashes.deep_view() == hs,
                r@ + spec_join_rest(hs.skip(i as int)) + "]}"@ == spec_get_trytes_body(hs),
            decreases n - i,
        {
            r.append(",");
            r.append("\"");
            r.append(hashes[i].as_str());
            r.append("\"");
            proof {
                assert(hs.skip(i as int)[0] == hs[i as int]);
                assert(hs.skip(i as int).drop_first() =~= hs.skip(i + 1));
                assert(r@ + spec_join_rest(hs.skip(i + 1)) + "]}"@ =~= spec_get_trytes_body(hs));
            }
            i += 1;
        }
        proof {
            assert(hs.skip(n as int) =~= Seq::<Seq<char>>::empty());
        }
        r.append("]}");
        proof {
            assert(r@ =~= spec_get_trytes_body(hs));
        }
        r
    } else {
        r.append("]}");
        proof {
            assert(r@ =~= spec_get_trytes_body(hs));
        }
        r
    }
}

/// The response of the legacy fetch: the node's reported duration plus the
/// raw trytes, one string per requested hash.
#[derive(Debug, Clone, PartialEq, Eq)]
pub struct GetTrytesResponse {
    pub duration: i64,
    pub trytes: Vec<String>,
}

} // verus!
