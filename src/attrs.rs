//! Reading an element's attribute list: finding an attribute by name and
//! reading a literal value.
use vstd::prelude::*;
use crate::ast::{Attribute, AttributeItem, AttributeName, AttributeValue};
use crate::text::{lower_of, lowercase, str_eq};

verus! {

/// `item` is a named attribute whose plain name equals `target` once both are
/// lowercased. Spread attributes and namespaced names never match.
pub open spec fn names_attr(item: AttributeItem, target: Seq<char>) -> bool {
    match item {
        AttributeItem::Attribute(a) => match a.name {
            AttributeName::Identifier(n) => lower_of(n@) == lower_of(target),
            AttributeName::Namespaced(_, _) => false,
        },
        AttributeItem::Spread(_) => false,
    }
}

/// The first attribute of `items` that `names_attr` matches.
pub open spec fn first_attr(items: Seq<AttributeItem>, target: Seq<char>) -> Option<Attribute>
    decreases items.len(),
{
    if items.len() == 0 {
        None
    } else if names_attr(items[0], target) {
        Some(items[0]->Attribute_0)
    } else {
        first_attr(items.drop_first(), target)
    }
}

/// Some attribute of `items` matches `target`.
pub open spec fn has_attr(items: Seq<AttributeItem>, target: Seq<char>) -> bool {
    exists|i: int| 0 <= i < items.len() && #[trigger] names_attr(items[i], target)
}

/// The literal string value of an attribute: `None` for the bare form and for
/// an expression.
pub open spec fn literal_of(a: Attribute) -> Option<Seq<char>> {
    match a.value {
        Some(AttributeValue::Literal(s)) => Some(s@),
        _ => None,
    }
}

/// `first_attr` is the attribute at the first matching index, and `None`
/// exactly when nothing matches.
pub proof fn lemma_first_attr(items: Seq<AttributeItem>, target: Seq<char>, k: int)
    requires
        0 <= k <= items.len(),
        forall|j: int| 0 <= j < k ==> !#[trigger] names_attr(items[j], target),
        k < items.len() ==> names_attr(items[k], target),
    ensures
        k < items.len() ==> first_attr(items, target) == Some(items[k]->Attribute_0),
        k == items.len() ==> first_attr(items, target) is None,
        has_attr(items, target) == (k < items.len()),
    decreases items.len(),
{
    if items.len() > 0 && k > 0 {
        assert(!names_attr(items[0], target));
        let rest = items.drop_first();
        assert forall|j: int| 0 <= j < k - 1 implies !#[trigger] names_attr(rest[j], target) by {
            assert(rest[j] == items[j + 1]);
        }
        if k < items.len() {
            assert(rest[k - 1] == items[k]);
        }
        lemma_first_attr(rest, target, k - 1);
    }
}

/// The index of the first named attribute of `items` whose name equals
/// `target` without regard to case. Spread attributes are passed over: what
/// they hold is unknown, so they count as absent.
pub fn find_attribute(items: &Vec<AttributeItem>, target: &str) -> (r: Option<usize>)
    ensures
        match r {
            Some(i) => i < items@.len() && names_attr(items@[i as int], target@)
                && first_attr(items@, target@) == Some(items@[i as int]->Attribute_0),
            None => first_attr(items@, target@) is None,
        },
        r is Some == has_attr(items@, target@),
{
    let t = lowercase(target);
    let mut i: usize = 0;
    while i < items.len()
        invariant
            i <= items@.len(),
            t@ == lower_of(target@),
            forall|j: int| 0 <= j < i ==> !#[trigger] names_attr(items@[j], target@),
        decreases items@.len() - i,
    {
        if let AttributeItem::Attribute(a) = &items[i] {
            if let AttributeName::Identifier(n) = &a.name {
                let l = lowercase(n.as_str());
                if str_eq(l.as_str(), t.as_str()) {
                    proof {
                        lemma_first_attr(items@, target@, i as int);
                    }
                    return Some(i);
                }
            }
        }
        i = i + 1;
    }
    proof {
        lemma_first_attr(items@, target@, i as int);
    }
    None
}

/// The attribute's value when it is a plain string literal.
pub fn literal_string_value(a: &Attribute) -> (r: Option<&str>)
    ensures
        match r {
            Some(v) => literal_of(*a) == Some(v@),
            None => literal_of(*a) is None,
        },
{
    match &a.value {
        Some(AttributeValue::Literal(s)) => Some(s.as_str()),
        _ => None,
    }
}

} // verus!
