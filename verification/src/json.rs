//! The little of JSON that outgoing frames are made of.

use vstd::prelude::*;
use vstd::string::*;

verus! {

/// The JSON text of a string value, as serde_json writes it: the string
/// between double quotes, with the characters escaped that JSON asks for.
pub uninterp spec fn json_string(text: Seq<char>) -> Seq<char>;

/// Has serde_json write a string value (`Value::String`, then its compact
/// `Display` form). The result is a function of the text alone.
#[verifier::external_body]
pub(crate) fn quoted(text: &str) -> (json: String)
    ensures
        json@ == json_string(text@),
{
    serde_json::Value::String(text.to_owned()).to_string()
}

/// The texts joined into one, with a comma between neighbours.
pub open spec fn joined(items: Seq<Seq<char>>) -> Seq<char>
    decreases items.len(),
{
    if items.len() == 0 {
        Seq::<char>::empty()
    } else if items.len() == 1 {
        items[0]
    } else {
        joined(items.drop_last()) + seq![','] + items.last()
    }
}

/// The characters of each text of a run of texts.
pub open spec fn texts(items: Seq<String>) -> Seq<Seq<char>> {
    Seq::new(items.len(), |i: int| items[i]@)
}

/// Joins the texts into one, with a comma between neighbours.
pub fn join(items: &Vec<String>) -> (all: String)
    ensures
        all@ == joined(texts(items@)),
{
    let mut all = String::new();
    let mut i: usize = 0;
    while i < items.len()
        invariant
            i <= items@.len(),
            all@ == joined(texts(items@).take(i as int)),
        decreases items@.len() - i,
    {
        proof {
            reveal_strlit(",");
            let done = texts(items@).take(i as int);
            let next = texts(items@).take(i + 1);
            assert(next.drop_last() =~= done);
            assert(next.last() == items@[i as int]@);
        }
        if i > 0 {
            all.append(",");
        }
        all.append(items[i].as_str());
        proof {
            assert(all@ =~= joined(texts(items@).take(i + 1)));
        }
        i = i + 1;
    }
    proof {
        assert(texts(items@).take(items@.len() as int) =~= texts(items@));
    }
    all
}

} // verus!
