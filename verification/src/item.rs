//! What is known of an item's attributes.

use vstd::prelude::*;

verus! {

/// A condition as it is read from a `#[cfg(..)]` attribute.
#[derive(Debug, PartialEq, Eq)]
pub enum CfgExpr {
    /// What could not be read as a condition.
    Invalid,
    /// A flag, as in `cfg(test)`.
    Flag(String),
    /// A key with a value, as in `cfg(target_os = "linux")`.
    KeyValue(String, String),
    /// All of the conditions hold.
    All(Vec<CfgExpr>),
    /// Any of the conditions holds.
    Any(Vec<CfgExpr>),
    /// The condition does not hold.
    Not(Box<CfgExpr>),
}

/// A condition of a `#[cfg(..)]` attribute.
#[derive(Debug, PartialEq, Eq)]
pub enum ItemCfgAttr {
    /// A flag, as in `cfg(test)`.
    Flag(String),
    /// A key with a value, as in `cfg(target_os = "linux")`.
    KeyValue(String, String),
    /// All of the conditions hold.
    All(Vec<ItemCfgAttr>),
    /// Any of the conditions holds.
    Any(Vec<ItemCfgAttr>),
    /// The condition does not hold.
    Not(Box<ItemCfgAttr>),
}

/// The mark of a `#[test]` function.
#[derive(Clone, Copy, Debug, PartialEq, Eq, Structural)]
pub struct ItemTestAttr;

/// A `CfgExpr` with its texts as character sequences.
pub enum CfgView {
    Invalid,
    Flag(Seq<char>),
    KeyValue(Seq<char>, Seq<char>),
    All(Seq<CfgView>),
    Any(Seq<CfgView>),
    Not(Box<CfgView>),
}

/// An `ItemCfgAttr` with its texts as character sequences.
pub enum AttrView {
    Flag(Seq<char>),
    KeyValue(Seq<char>, Seq<char>),
    All(Seq<AttrView>),
    Any(Seq<AttrView>),
    Not(Box<AttrView>),
}

/// The view of a condition as read.
pub open spec fn cfg_view(cfg: CfgExpr) -> CfgView
    decreases cfg,
{
    match cfg {
        CfgExpr::Invalid => CfgView::Invalid,
        CfgExpr::Flag(flag) => CfgView::Flag(flag@),
        CfgExpr::KeyValue(key, value) => CfgView::KeyValue(key@, value@),
        CfgExpr::All(list) => CfgView::All(cfg_views(list@, list@.len())),
        CfgExpr::Any(list) => CfgView::Any(cfg_views(list@, list@.len())),
        CfgExpr::Not(inner) => CfgView::Not(Box::new(cfg_view(*inner))),
    }
}

/// The views of the first `n` conditions of a list.
pub open spec fn cfg_views(list: Seq<CfgExpr>, n: nat) -> Seq<CfgView>
    decreases list, n,
{
    if n == 0 || n > list.len() {
        Seq::empty()
    } else {
        cfg_views(list, (n - 1) as nat).push(cfg_view(list[n - 1]))
    }
}

/// The view of a condition.
pub open spec fn attr_view(attr: ItemCfgAttr) -> AttrView
    decreases attr,
{
    match attr {
        ItemCfgAttr::Flag(flag) => AttrView::Flag(flag@),
        ItemCfgAttr::KeyValue(key, value) => AttrView::KeyValue(key@, value@),
        ItemCfgAttr::All(list) => AttrView::All(attr_views(list@, list@.len())),
        ItemCfgAttr::Any(list) => AttrView::Any(attr_views(list@, list@.len())),
        ItemCfgAttr::Not(inner) => AttrView::Not(Box::new(attr_view(*inner))),
    }
}

/// The views of the first `n` conditions of a list.
pub open spec fn attr_views(list: Seq<ItemCfgAttr>, n: nat) -> Seq<AttrView>
    decreases list, n,
{
    if n == 0 || n > list.len() {
        Seq::empty()
    } else {
        attr_views(list, (n - 1) as nat).push(attr_view(list[n - 1]))
    }
}

/// The condition that a condition as read stands for: itself, without what
/// could not be read. A conjunction or disjunction keeps the members that
/// stand for something; a negation stands for something if what it negates
/// does.
pub open spec fn attr_of(cfg: CfgView) -> Option<AttrView>
    decreases cfg,
{
    match cfg {
        CfgView::Invalid => None,
        CfgView::Flag(flag) => Some(AttrView::Flag(flag)),
        CfgView::KeyValue(key, value) => Some(AttrView::KeyValue(key, value)),
        CfgView::All(list) => Some(AttrView::All(attrs_of(list, list.len()))),
        CfgView::Any(list) => Some(AttrView::Any(attrs_of(list, list.len()))),
        CfgView::Not(inner) => match attr_of(*inner) {
            Some(attr) => Some(AttrView::Not(Box::new(attr))),
            None => None,
        },
    }
}

/// The conditions that the first `n` of a list of conditions as read stand
/// for, in order.
pub open spec fn attrs_of(list: Seq<CfgView>, n: nat) -> Seq<AttrView>
    decreases list, n,
{
    if n == 0 || n > list.len() {
        Seq::empty()
    } else {
        let rest = attrs_of(list, (n - 1) as nat);
        match attr_of(list[n - 1]) {
            Some(attr) => rest.push(attr),
            None => rest,
        }
    }
}

/// The view of an optional condition.
pub open spec fn opt_attr_view(attr: Option<ItemCfgAttr>) -> Option<AttrView> {
    match attr {
        Some(a) => Some(attr_view(a)),
        None => None,
    }
}

impl ItemCfgAttr {
    /// The condition that a condition as read stands for, if any.
    pub fn new(cfg: &CfgExpr) -> (r: Option<ItemCfgAttr>)
        ensures
            opt_attr_view(r) == attr_of(cfg_view(*cfg)),
        decreases cfg,
    {
        match cfg {
            CfgExpr::Invalid => None,
            CfgExpr::Flag(flag) => Some(ItemCfgAttr::Flag(flag.clone())),
            CfgExpr::KeyValue(key, value) => Some(ItemCfgAttr::KeyValue(key.clone(), value.clone())),
            CfgExpr::All(list) => {
                proof {
                    lemma_cfg_views(list@, list@.len());
                }
                Some(ItemCfgAttr::All(Self::all_of(list)))
            },
            CfgExpr::Any(list) => {
                proof {
                    lemma_cfg_views(list@, list@.len());
                }
                Some(ItemCfgAttr::Any(Self::all_of(list)))
            },
            CfgExpr::Not(inner) => match Self::new(inner) {
                Some(attr) => Some(ItemCfgAttr::Not(Box::new(attr))),
                None => None,
            },
        }
    }

    /// The conditions that a list of conditions as read stand for.
    pub fn all_of(list: &Vec<CfgExpr>) -> (out: Vec<ItemCfgAttr>)
        ensures
            attr_views(out@, out@.len()) == attrs_of(
                cfg_views(list@, list@.len()),
                list@.len(),
            ),
        decreases list,
    {
        let mut out: Vec<ItemCfgAttr> = Vec::new();
        let mut i: usize = 0;
        while i < list.len()
            invariant
                i <= list.len(),
                attr_views(out@, out@.len()) == attrs_of(cfg_views(list@, i as nat), i as nat),
            decreases list.len() - i,
        {
            let ghost before = out@;
            proof {
                lemma_cfg_views(list@, i as nat);
                lemma_cfg_views(list@, (i + 1) as nat);
                lemma_attrs_of_prefix(
                    cfg_views(list@, i as nat),
                    cfg_views(list@, (i + 1) as nat),
                    i as nat,
                );
            }
            match Self::new(&list[i]) {
                Some(attr) => {
                    out.push(attr);
                    proof {
                        lemma_attr_views_prefix(before, out@, before.len());
                    }
                },
                None => {},
            }
            i += 1;
        }
        out
    }
}

/// The views of the first `n` conditions are `n`, each the view of the
/// condition at its place.
proof fn lemma_cfg_views(list: Seq<CfgExpr>, n: nat)
    requires
        n <= list.len(),
    ensures
        cfg_views(list, n).len() == n,
        forall|i: int| 0 <= i < n ==> cfg_views(list, n)[i] == cfg_view(list[i]),
    decreases n,
{
    if n > 0 {
        lemma_cfg_views(list, (n - 1) as nat);
    }
}

/// The views of a prefix of a list are those of the list up to there.
proof fn lemma_attr_views_prefix(a: Seq<ItemCfgAttr>, b: Seq<ItemCfgAttr>, n: nat)
    requires
        n <= a.len() <= b.len(),
        forall|i: int| 0 <= i < n ==> a[i] == b[i],
    ensures
        attr_views(a, n) == attr_views(b, n),
    decreases n,
{
    if n > 0 {
        lemma_attr_views_prefix(a, b, (n - 1) as nat);
    }
}

/// What a prefix of a list stands for is what the list stands for up to
/// there.
proof fn lemma_attrs_of_prefix(a: Seq<CfgView>, b: Seq<CfgView>, n: nat)
    requires
        n <= a.len() <= b.len(),
        forall|i: int| 0 <= i < n ==> a[i] == b[i],
    ensures
        attrs_of(a, n) == attrs_of(b, n),
    decreases n,
{
    if n > 0 {
        lemma_attrs_of_prefix(a, b, (n - 1) as nat);
    }
}

} // verus!
