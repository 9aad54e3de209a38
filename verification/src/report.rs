//! Foreign failures as causes: which texts of an error chain reach a verbose
//! client payload.

use crate::error::{strs_view, ForeignError, ForeignErrorView};
use vstd::prelude::*;

verus! {

/// `erris::Report`, an error report with a chain of causes: carried through
/// untouched.
#[verifier::external_type_specification]
#[verifier::external_body]
pub struct ExReport(erris::Report);

/// One link of an error chain: whether it wraps a further cause of its own,
/// and how it renders.
#[derive(Debug, Clone, PartialEq)]
pub struct ChainLink {
    pub has_source: bool,
    pub text: String,
}

/// The texts of the innermost links of a chain (those that wrap no further
/// cause), in chain order. A wrapper link only re-renders what it wraps, so
/// its text is left out.
pub open spec fn leaf_texts(links: Seq<ChainLink>) -> Seq<Seq<char>>
    decreases links.len(),
{
    if links.len() == 0 {
        Seq::empty()
    } else {
        leaf_texts(links.drop_last()) + if links.last().has_source {
            Seq::empty()
        } else {
            seq![links.last().text@]
        }
    }
}

/// The cause a chain stands for: rendered as `display`, with the texts of its
/// innermost links as the texts that reach a verbose payload.
pub fn foreign_from_links(display: String, links: &Vec<ChainLink>) -> (r: ForeignError)
    ensures
        r@ == (ForeignErrorView { display: display@, leaves: leaf_texts(links@) }),
{
    let mut leaves: Vec<String> = Vec::new();
    let mut i: usize = 0;
    proof {
        assert(links@.take(0) =~= Seq::<ChainLink>::empty());
        assert(strs_view(leaves@) =~= Seq::<Seq<char>>::empty());
    }
    while i < links.len()
        invariant
            i <= links@.len(),
            strs_view(leaves@) == leaf_texts(links@.take(i as int)),
        decreases links@.len() - i,
    {
        let ghost before = leaves@;
        proof {
            assert(links@.take(i + 1).drop_last() =~= links@.take(i as int));
            assert(links@.take(i + 1).last() == links@[i as int]);
        }
        if !links[i].has_source {
            leaves.push(links[i].text.clone());
            proof {
                assert(strs_view(leaves@) =~= strs_view(before) + seq![links@[i as int].text@]);
            }
        } else {
            proof {
                assert(strs_view(leaves@) =~= strs_view(before) + Seq::<Seq<char>>::empty());
            }
        }
        i = i + 1;
    }
    proof {
        assert(links@.take(i as int) =~= links@);
    }
    ForeignError::from_parts(display, leaves)
}

/// The `Display` rendering of an `erris::Report`. Nothing is promised of the
/// text: it is the report's own rendering. Public so that the contract of
/// [`foreign_from_report`] can speak of what it returned.
#[verifier::external_body]
pub fn report_display(report: &erris::Report) -> (r: String) {
    report.to_string()
}

/// `erris::Report::chain`: the links of the report's chain, in the order the
/// chain yields them, each as whether it has a `source()` and its rendering.
/// Nothing is promised of what comes back: the report is opaque here. Public
/// so that the contract of [`foreign_from_report`] can speak of what it
/// returned.
#[verifier::external_body]
pub fn report_chain(report: &erris::Report) -> (r: Vec<ChainLink>) {
    report
        .chain()
        .map(|link| ChainLink { has_source: link.as_error().source().is_some(), text: link.as_error().to_string() })
        .collect()
}

/// The cause an `erris::Report` stands for: its rendering, and the texts of
/// the innermost links of its chain, as [`foreign_from_links`] picks them.
/// The contract ties the result to what [`report_display`] and
/// [`report_chain`] returned for this report: its rendering, and exactly the
/// texts of the chain's links that have no source, in chain order.
pub fn foreign_from_report(report: &erris::Report) -> (r: ForeignError)
    ensures
        exists|display: String, links: Vec<ChainLink>|
            call_ensures(report_display, (report,), display) && call_ensures(report_chain, (report,), links)
                && r@ == (ForeignErrorView { display: display@, leaves: leaf_texts(links@) }),
{
    let display = report_display(report);
    let links = report_chain(report);
    foreign_from_links(display, &links)
}


/// The texts kept of a chain are those of its links that have no source, one
/// per such link, in chain order: the texts of a chain joined from two are the
/// two lists joined, and a single link contributes its text exactly when it
/// has no source.
pub proof fn lemma_leaf_texts_by_link(a: Seq<ChainLink>, b: Seq<ChainLink>, l: ChainLink)
    ensures
        leaf_texts(a + b) == leaf_texts(a) + leaf_texts(b),
        leaf_texts(seq![l]) == (if l.has_source {
            Seq::<Seq<char>>::empty()
        } else {
            seq![l.text@]
        }),
    decreases b.len(),
{
    if b.len() > 0 {
        assert((a + b).drop_last() =~= a + b.drop_last());
        assert((a + b).last() == b.last());
        lemma_leaf_texts_by_link(a, b.drop_last(), l);
        assert(leaf_texts(a + b) =~= leaf_texts(a) + leaf_texts(b));
    } else {
        assert(a + b =~= a);
        assert(leaf_texts(a) + leaf_texts(b) =~= leaf_texts(a));
    }
    assert(seq![l].drop_last() =~= Seq::<ChainLink>::empty());
    assert(seq![l].last() == l);
    assert(leaf_texts(Seq::<ChainLink>::empty()) == Seq::<Seq<char>>::empty());
    assert(leaf_texts(seq![l]) =~= (if l.has_source {
        Seq::<Seq<char>>::empty()
    } else {
        seq![l.text@]
    }));
}

} // verus!
