//! The bar of links to the main sections.
use vstd::prelude::*;
use crate::app::settings::SettingRoute;
use crate::app::{AppRoute, BrowseRoute, CatalogueRoute};

verus! {

/// What the navigation bar is opened with: nothing.
#[derive(Clone, Copy, Debug, PartialEq, Eq, Structural)]
pub struct Props {}

/// The navigation bar; it holds no state.
#[derive(Clone, Copy, Debug, PartialEq, Eq, Structural)]
pub struct NavigationBar {}

/// A link of the navigation bar: its label and the page it leads to.
#[derive(Clone, Debug, PartialEq, Eq)]
pub struct NavTab {
    pub label: String,
    pub route: AppRoute,
}

/// `t` is labelled `label` and leads to `route`.
pub open spec fn is_tab(t: NavTab, label: Seq<char>, route: AppRoute) -> bool {
    t.label@ == label && t.route == route
}

/// A tab.
fn tab(label: &str, route: AppRoute) -> (t: NavTab)
    ensures
        is_tab(t, label@, route),
{
    NavTab { label: String::from_str(label), route }
}

impl NavigationBar {
    /// The navigation bar.
    pub fn create(_props: Props) -> NavigationBar {
        NavigationBar {}
    }

    /// The links of the bar, in order: Favorites (the browsing home), Catalogue
    /// (the source selection), Updates, History, and Settings (its overview).
    pub fn tabs(&self) -> (tabs: Vec<NavTab>)
        ensures
            tabs@.len() == 5,
            is_tab(tabs@[0], "Favorites"@, AppRoute::Browse(BrowseRoute::Home)),
            is_tab(
                tabs@[1],
                "Catalogue"@,
                AppRoute::Browse(BrowseRoute::Catalogue(CatalogueRoute::Select)),
            ),
            is_tab(tabs@[2], "Updates"@, AppRoute::Browse(BrowseRoute::Updates)),
            is_tab(tabs@[3], "History"@, AppRoute::Browse(BrowseRoute::History)),
            is_tab(
                tabs@[4],
                "Settings"@,
                AppRoute::Browse(BrowseRoute::Settings(SettingRoute::Home)),
            ),
    {
        let mut tabs: Vec<NavTab> = Vec::new();
        tabs.push(tab("Favorites", AppRoute::Browse(BrowseRoute::Home)));
        tabs.push(tab("Catalogue", AppRoute::Browse(BrowseRoute::Catalogue(CatalogueRoute::Select))));
        tabs.push(tab("Updates", AppRoute::Browse(BrowseRoute::Updates)));
        tabs.push(tab("History", AppRoute::Browse(BrowseRoute::History)));
        tabs.push(tab("Settings", AppRoute::Browse(BrowseRoute::Settings(SettingRoute::Home))));
        tabs
    }
}

} // verus!
