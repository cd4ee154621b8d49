//! The bar above the reader: the manga's title, the chapter, and a link back
//! to the manga.
use vstd::prelude::*;
use crate::app::{AppRoute, BrowseRoute, ClassChange, DomNode, class_change, is_class_change};

verus! {

/// What the toolbar shows: whether it is shown, the manga it belongs to, its
/// title and the chapter. (The refresh callback stays with the page that draws
/// the toolbar.)
#[derive(Clone, Debug, PartialEq, Eq)]
pub struct Props {
    pub visible: bool,
    pub manga_id: i32,
    pub title: String,
    pub chapter: String,
}

/// The toolbar.
pub struct ReaderToolbar {
    pub props: Props,
}

/// What the toolbar asks of the page.
#[derive(Clone, Debug, PartialEq, Eq)]
pub enum ToolbarEffect {
    /// Put this text, as HTML, in the title.
    SetTitle(String),
    /// Change a class of the toolbar.
    Class(ClassChange),
}

/// Two sets of props show the same.
pub open spec fn same_props(a: Props, b: Props) -> bool {
    a.visible == b.visible && a.manga_id == b.manga_id && a.title@ == b.title@ && a.chapter@
        == b.chapter@
}

/// `e` changes class `class` of the toolbar (`add` or remove).
pub open spec fn toolbar_class(e: ToolbarEffect, class: Seq<char>, add: bool) -> bool {
    e matches ToolbarEffect::Class(c) && is_class_change(c, DomNode::ReaderToolbar, class, add)
}

/// What new props do: when they show something else (`changed`), the toolbar
/// takes them, puts the new title in place and slides out (hidden) or in
/// (shown); else nothing happens.
pub open spec fn toolbar_change(
    old_props: Props,
    props: Props,
    changed: bool,
    new_props: Props,
    effects: Seq<ToolbarEffect>,
) -> bool {
    if changed {
        &&& new_props == props
        &&& effects.len() == 3
        &&& effects[0] == ToolbarEffect::SetTitle(props.title)
        &&& if props.visible {
            toolbar_class(effects[1], "slideOutUp"@, false) && toolbar_class(
                effects[2],
                "slideInDown"@,
                true,
            )
        } else {
            toolbar_class(effects[1], "slideInDown"@, false) && toolbar_class(
                effects[2],
                "slideOutUp"@,
                true,
            )
        }
    } else {
        new_props == old_props && effects.len() == 0
    }
}

impl ReaderToolbar {
    /// The toolbar with its first props.
    pub fn create(props: Props) -> (t: ReaderToolbar)
        ensures
            t.props == props,
    {
        ReaderToolbar { props }
    }

    /// Takes new props; `same_callback` tells whether their refresh callback is
    /// the one the toolbar has. Returns whether to draw again, which is whether
    /// the props differ, and what to change on the page.
    pub fn change(&mut self, props: Props, same_callback: bool) -> (r: (bool, Vec<ToolbarEffect>))
        ensures
            r.0 == !(same_callback && same_props(old(self).props, props)),
            toolbar_change(old(self).props, props, r.0, final(self).props, r.1@),
    {
        let mut effects: Vec<ToolbarEffect> = Vec::new();
        let same = same_callback && self.props.visible == props.visible && self.props.manga_id
            == props.manga_id && self.props.title == props.title && self.props.chapter
            == props.chapter;
        if same {
            return (false, effects);
        }
        self.props = props;
        effects.push(ToolbarEffect::SetTitle(self.props.title.clone()));
        if !self.props.visible {
            effects.push(ToolbarEffect::Class(class_change(DomNode::ReaderToolbar, "slideInDown", false)));
            effects.push(ToolbarEffect::Class(class_change(DomNode::ReaderToolbar, "slideOutUp", true)));
        } else {
            effects.push(ToolbarEffect::Class(class_change(DomNode::ReaderToolbar, "slideOutUp", false)));
            effects.push(ToolbarEffect::Class(class_change(DomNode::ReaderToolbar, "slideInDown", true)));
        }
        (true, effects)
    }

    /// The page that the toolbar's close link leads to: the manga's page.
    pub fn close_route(&self) -> (r: AppRoute)
        ensures
            r == AppRoute::Browse(BrowseRoute::Detail(self.props.manga_id)),
    {
        AppRoute::Browse(BrowseRoute::Detail(self.props.manga_id))
    }
}

/// Props that show the same thing, with the same callback, change nothing:
/// giving the toolbar the same props twice draws at most once.
pub proof fn lemma_same_props_change_nothing(
    p0: Props,
    props: Props,
    same_callback: bool,
    changed1: bool,
    p1: Props,
    e1: Seq<ToolbarEffect>,
    p2: Props,
    e2: Seq<ToolbarEffect>,
)
    requires
        changed1 == !(same_callback && same_props(p0, props)),
        toolbar_change(p0, props, changed1, p1, e1),
        toolbar_change(p1, props, !same_props(p1, props), p2, e2),
    ensures
        same_props(p1, props),
        p2 == p1,
        e2.len() == 0,
{
}

/// Whenever new props differ from the shown ones (or bring another callback),
/// the toolbar takes them and its first change puts their title in place,
/// whether or not the visibility changed; then it slides in when shown and out
/// when hidden. Props that show the same, with the same callback, change
/// nothing.
pub proof fn lemma_change_puts_title(
    old_props: Props,
    props: Props,
    same_callback: bool,
    changed: bool,
    new_props: Props,
    effects: Seq<ToolbarEffect>,
)
    requires
        changed == !(same_callback && same_props(old_props, props)),
        toolbar_change(old_props, props, changed, new_props, effects),
    ensures
        changed ==> {
            &&& new_props == props
            &&& effects.len() == 3
            &&& effects[0] == ToolbarEffect::SetTitle(props.title)
            &&& props.visible ==> toolbar_class(effects[2], "slideInDown"@, true)
            &&& !props.visible ==> toolbar_class(effects[2], "slideOutUp"@, true)
        },
        (old_props.title@ != props.title@) ==> changed && effects[0] == ToolbarEffect::SetTitle(
            props.title,
        ),
        !changed ==> new_props == old_props && effects.len() == 0,
{
}

} // verus!
