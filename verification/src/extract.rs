//! The field extractor: one required or optional text value per selector,
//! taken as the concatenation of all descendant text nodes under the first
//! matching element.

use vstd::prelude::*;
use vstd::string::StringExecFns;
use crate::error::{ParseError, ParseErrorModel};
use crate::html::{select_text_nodes, selector_matches};

verus! {

/// The concatenation of a sequence of text nodes.
pub open spec fn concat_texts(nodes: Seq<Seq<char>>) -> Seq<char>
    decreases nodes.len(),
{
    if nodes.len() == 0 {
        Seq::empty()
    } else {
        nodes[0] + concat_texts(nodes.drop_first())
    }
}

/// Concatenation appends one node at a time.
pub proof fn lemma_concat_push(nodes: Seq<Seq<char>>, x: Seq<char>)
    ensures
        concat_texts(nodes.push(x)) == concat_texts(nodes) + x,
    decreases nodes.len(),
{
    if nodes.len() == 0 {
        assert(nodes.push(x).drop_first() =~= Seq::<Seq<char>>::empty());
        assert(nodes.push(x)[0] == x);
        assert(concat_texts(Seq::<Seq<char>>::empty()) == Seq::<char>::empty());
        assert(concat_texts(nodes.push(x)) == x + Seq::<char>::empty());
        assert(x + Seq::<char>::empty() =~= x);
        assert(Seq::<char>::empty() + x =~= x);
    } else {
        lemma_concat_push(nodes.drop_first(), x);
        assert(nodes.push(x).drop_first() =~= nodes.drop_first().push(x));
        assert(nodes.push(x)[0] == nodes[0]);
        assert(nodes[0] + (concat_texts(nodes.drop_first()) + x) =~= (nodes[0] + concat_texts(
            nodes.drop_first(),
        )) + x);
    }
}

/// The concatenation of the given text nodes, in order.
pub fn concat_strings(nodes: &Vec<String>) -> (r: String)
    ensures
        r@ == concat_texts(nodes.deep_view()),
{
    let mut r = String::new();
    let mut i: usize = 0;
    while i < nodes.len()
        invariant
            i <= nodes@.len(),
            nodes.deep_view().len() == nodes@.len(),
            r@ == concat_texts(nodes.deep_view().take(i as int)),
        decreases nodes@.len() - i,
    {
        let node = &nodes[i];
        r.append(node.as_str());
        proof {
            assert(nodes.deep_view()[i as int] == nodes@[i as int]@);
            assert(nodes.deep_view().take(i as int).push(nodes.deep_view()[i as int])
                =~= nodes.deep_view().take(i + 1 as int));
            lemma_concat_push(nodes.deep_view().take(i as int), nodes.deep_view()[i as int]);
        }
        i = i + 1;
    }
    proof {
        assert(nodes.deep_view().take(nodes@.len() as int) =~= nodes.deep_view());
    }
    r
}

/// What extracting a required field yields: the concatenated text of the
/// first match, or the missing-field failure naming the selector.
pub open spec fn spec_extract_required(doc: Seq<char>, sel: Seq<char>) -> Result<
    Seq<char>,
    ParseErrorModel,
> {
    if selector_matches(doc, sel).len() == 0 {
        Err(ParseErrorModel::MissingField { selector: sel })
    } else {
        Ok(concat_texts(selector_matches(doc, sel)[0]))
    }
}

/// What extracting an optional field yields: the concatenated text of the
/// first match, or nothing at all; absence is not an error.
pub open spec fn spec_extract_optional(doc: Seq<char>, sel: Seq<char>) -> Option<Seq<char>> {
    if selector_matches(doc, sel).len() == 0 {
        None
    } else {
        Some(concat_texts(selector_matches(doc, sel)[0]))
    }
}

/// Extracts a required field: the concatenation of all descendant text nodes
/// under the first element the selector matches; a selector matching nothing
/// is a missing-field failure naming the selector.
pub fn extract_required(doc: &str, selector: &str) -> (r: Result<String, ParseError>)
    ensures
        r matches Ok(v) ==> spec_extract_required(doc@, selector@) matches Ok(m) && v@ == m,
        r matches Err(e) ==> spec_extract_required(doc@, selector@) matches Err(m) && e@ == m,
{
    let nodes = select_text_nodes(doc, selector);
    if nodes.len() == 0 {
        proof {
            assert(nodes.deep_view().len() == nodes@.len());
        }
        Err(ParseError::MissingField { selector: String::from_str(selector) })
    } else {
        proof {
            assert(nodes.deep_view().len() == nodes@.len());
            assert(nodes.deep_view()[0] == nodes@[0].deep_view());
        }
        Ok(concat_strings(&nodes[0]))
    }
}

/// Extracts an optional field: as the required form, except that a selector
/// matching nothing yields no value rather than a failure.
pub fn extract_optional(doc: &str, selector: &str) -> (r: Option<String>)
    ensures
        r matches Some(v) ==> spec_extract_optional(doc@, selector@) matches Some(m) && v@ == m,
        r is None <==> spec_extract_optional(doc@, selector@) is None,
{
    let nodes = select_text_nodes(doc, selector);
    proof {
        assert(nodes.deep_view().len() == nodes@.len());
    }
    if nodes.len() == 0 {
        None
    } else {
        proof {
            assert(nodes.deep_view()[0] == nodes@[0].deep_view());
        }
        Some(concat_strings(&nodes[0]))
    }
}

} // verus!
