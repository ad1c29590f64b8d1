//! The customer-facing redirect directive and the interpretation of its
//! form fields as a key-to-value mapping.

use vstd::prelude::*;
use crate::strutil::str_eq;

verus! {

/// The HTTP method the front end uses to follow a redirect directive.
#[derive(Debug, Clone, Copy, PartialEq, Eq, Structural)]
pub enum Method {
    Get,
    Post,
}

/// The views of a sequence of owned string pairs.
pub open spec fn pairs_view(pairs: Seq<(String, String)>) -> Seq<(Seq<char>, Seq<char>)> {
    pairs.map_values(|p: (String, String)| (p.0@, p.1@))
}

/// The mapping a pair sequence denotes, folded front to back, so that on
/// a duplicate key the later pair wins.
pub open spec fn pairs_map(pairs: Seq<(Seq<char>, Seq<char>)>) -> Map<Seq<char>, Seq<char>>
    decreases pairs.len(),
{
    if pairs.len() == 0 {
        Map::empty()
    } else {
        pairs_map(pairs.drop_last()).insert(pairs.last().0, pairs.last().1)
    }
}

/// On the keys that no pair at an index at or past `j` carries,
/// `pairs_map` does not look beyond the first `j` pairs.
proof fn lemma_pairs_map_skip_suffix(s: Seq<(Seq<char>, Seq<char>)>, j: int, k: Seq<char>)
    requires
        0 <= j <= s.len(),
        forall|i: int| j <= i < s.len() ==> (#[trigger] s[i]).0 != k,
    ensures
        pairs_map(s).contains_key(k) == pairs_map(s.take(j)).contains_key(k),
        pairs_map(s).contains_key(k) ==> pairs_map(s)[k] == pairs_map(s.take(j))[k],
    decreases s.len() - j,
{
    if j == s.len() {
        assert(s.take(j) =~= s);
    } else {
        assert(s[s.len() - 1].0 != k);
        lemma_pairs_map_skip_suffix(s.drop_last(), j, k);
        assert(s.drop_last().take(j) =~= s.take(j));
    }
}

/// Taking one more pair inserts exactly that pair's binding.
proof fn lemma_pairs_map_take_step(s: Seq<(Seq<char>, Seq<char>)>, i: int)
    requires
        0 <= i < s.len(),
    ensures
        pairs_map(s.take(i + 1)) == pairs_map(s.take(i)).insert(s[i].0, s[i].1),
{
    assert(s.take(i + 1).drop_last() =~= s.take(i));
    assert(s.take(i + 1).last() == s[i]);
}

/// A directive telling the platform's front end to navigate the
/// customer to an external URL. The form fields are the decomposition
/// of the target URL's query string, kept in the order the query
/// carries them; as a mapping, a repeated field name resolves to its
/// last occurrence.
#[derive(Debug, Clone, PartialEq, Eq)]
pub struct RedirectForm {
    pub url: String,
    pub method: Method,
    pub form_fields: Vec<(String, String)>,
}

impl RedirectForm {
    /// The form fields as a sequence of character-sequence pairs.
    pub open spec fn fields_view(self) -> Seq<(Seq<char>, Seq<char>)> {
        pairs_view(self.form_fields@)
    }

    /// The form fields as a mapping; a repeated name takes its last value.
    pub open spec fn fields_map(self) -> Map<Seq<char>, Seq<char>> {
        pairs_map(self.fields_view())
    }

    /// Looks a form field up by name, under the mapping's last-wins rule.
    pub fn form_field(&self, key: &str) -> (r: Option<String>)
        ensures
            match r {
                Some(v) => self.fields_map().contains_key(key@)
                    && v@ == self.fields_map()[key@],
                None => !self.fields_map().contains_key(key@),
            },
    {
        let ghost s = self.fields_view();
        let mut i = self.form_fields.len();
        while i > 0
            invariant
                i <= self.form_fields.len(),
                s == self.fields_view(),
                forall|t: int| i <= t < s.len() ==> (#[trigger] s[t]).0 != key@,
            decreases i,
        {
            i = i - 1;
            if str_eq(self.form_fields[i].0.as_str(), key) {
                proof {
                    lemma_pairs_map_skip_suffix(s, i + 1, key@);
                    lemma_pairs_map_take_step(s, i as int);
                }
                return Some(self.form_fields[i].1.clone());
            }
        }
        proof {
            lemma_pairs_map_skip_suffix(s, 0, key@);
        }
        None
    }
}

} // verus!
