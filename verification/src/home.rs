//! The home page, its banner and the search page it leads to.

use vstd::prelude::*;
use crate::route::AppRoute;

verus! {

/// A request to the browser's storage.
pub enum HomeRequest {
    /// Keep the text for the search page to take over.
    SetHistorySearch(String),
    /// Forget the kept text, once the search page has taken it over.
    ClearHistorySearch,
}

/// The text kept for the search page after a request to the storage.
pub open spec fn stored_after(stored: Option<String>, r: HomeRequest) -> Option<String> {
    match r {
        HomeRequest::SetHistorySearch(t) => Some(t),
        HomeRequest::ClearHistorySearch => None,
    }
}

/// What the home page reacts to.
pub enum HomeMsg {
    InputSearch(String),
    OpenSearchPage,
    Ignore,
}

/// What a transition of the home page asks for.
pub enum HomeAction {
    Query(HomeRequest),
    Route(AppRoute),
}

/// The state of the home page: the text typed in its search field.
pub struct Home {
    pub search_text: String,
}

/// The transition of the home page: from `s`, message `m` leads to `t` and
/// asks for `acts`.
pub open spec fn home_next(s: Home, m: HomeMsg, t: Home, acts: Seq<HomeAction>) -> bool {
    match m {
        HomeMsg::InputSearch(v) => t == (Home { search_text: v }) && acts.len() == 0,
        HomeMsg::OpenSearchPage => t == s && acts == seq![
            HomeAction::Query(HomeRequest::SetHistorySearch(s.search_text)),
            HomeAction::Route(AppRoute::SearchPage),
        ],
        HomeMsg::Ignore => t == s && acts.len() == 0,
    }
}

/// Search law: the search page is opened with the text last typed, which is
/// handed over before the page opens.
pub proof fn lemma_search_text_handed_over(s: Home, v: String, t: Home, a1: Seq<HomeAction>, u: Home, a2: Seq<HomeAction>)
    requires
        home_next(s, HomeMsg::InputSearch(v), t, a1),
        home_next(t, HomeMsg::OpenSearchPage, u, a2),
    ensures
        a2[0] == HomeAction::Query(HomeRequest::SetHistorySearch(v)),
        a2[1] == HomeAction::Route(AppRoute::SearchPage),
{
}

impl Home {
    /// The home page as first created: an empty search field.
    pub fn new() -> (s: Self)
        ensures
            s.search_text@.len() == 0,
    {
        Home { search_text: String::new() }
    }

    /// What showing the home page does: a signed-in user (by username) is
    /// sent to the own profile on the first showing.
    pub fn on_render(&self, first_render: bool, logged_username: Option<String>) -> (acts: Vec<HomeAction>)
        ensures
            acts@ == (match logged_username {
                Some(u) => if first_render { seq![HomeAction::Route(AppRoute::Profile(u))] } else { Seq::empty() },
                None => Seq::<HomeAction>::empty(),
            }),
    {
        let mut acts: Vec<HomeAction> = Vec::new();
        if first_render {
            match logged_username {
                Some(u) => {
                    acts.push(HomeAction::Route(AppRoute::Profile(u)));
                },
                None => {},
            }
        }
        acts
    }

    /// Handles one message; see `home_next`. The page is drawn again after
    /// each.
    pub fn update(&mut self, msg: HomeMsg) -> (acts: Vec<HomeAction>)
        ensures
            home_next(*old(self), msg, *final(self), acts@),
    {
        let mut acts: Vec<HomeAction> = Vec::new();
        match msg {
            HomeMsg::InputSearch(v) => {
                self.search_text = v;
            },
            HomeMsg::OpenSearchPage => {
                acts.push(HomeAction::Query(HomeRequest::SetHistorySearch(self.search_text.clone())));
                acts.push(HomeAction::Route(AppRoute::SearchPage));
                assert(acts@ =~= seq![
                    HomeAction::Query(HomeRequest::SetHistorySearch(self.search_text)),
                    HomeAction::Route(AppRoute::SearchPage),
                ]);
            },
            HomeMsg::Ignore => {},
        }
        acts
    }
}

/// The banner of the home page: it has no state.
pub struct Banner {}

impl Banner {
    /// The banner.
    pub fn new() -> (b: Self) {
        Banner {}
    }

    /// The banner takes no message; it is drawn again.
    pub fn update(&mut self) -> (redraw: bool)
        ensures
            redraw,
    {
        true
    }

    /// The banner takes no properties; it is never drawn again for them.
    pub fn change(&mut self) -> (redraw: bool)
        ensures
            !redraw,
    {
        false
    }
}

/// The main view of the welcome page: it has no state and shows nothing.
pub struct MainView {}

impl MainView {
    /// The view.
    pub fn new() -> (v: Self) {
        MainView {}
    }

    /// The view takes no message; it is not drawn again.
    pub fn update(&mut self) -> (redraw: bool)
        ensures
            !redraw,
    {
        false
    }

    /// The view takes no properties; it is not drawn again.
    pub fn changed(&mut self) -> (redraw: bool)
        ensures
            !redraw,
    {
        false
    }
}

/// What the search looks for.
pub struct SearchArg {
    pub search: String,
    pub spec_id: usize,
    pub by_params: bool,
    pub by_specs: bool,
    pub by_keywords: bool,
    pub favorite: bool,
    pub company_uuid: Option<String>,
    pub standard_uuid: Option<String>,
    pub user_uuid: Option<String>,
}

/// An object filter as typed: none for an empty field.
pub open spec fn wrapped(v: String) -> Option<String> {
    if v@.len() == 0 { None } else { Some(v) }
}

/// See `wrapped`.
pub fn wraps_text(v: String) -> (r: Option<String>)
    ensures
        r == wrapped(v),
{
    if v.as_str().unicode_len() == 0 {
        None
    } else {
        Some(v)
    }
}

/// What the search page reacts to.
pub enum SearchMsg {
    ChangeSpec(usize),
    ByParams,
    BySpecs,
    ByKeywords,
    OnlyFavorite,
    ForCompany(String),
    ForStandard(String),
    ForUser(String),
    ToggleCheckboxs,
    ToggleForObjects,
    Ignore,
}

/// The state of the search page.
pub struct SearchPage {
    pub search_arg: SearchArg,
    pub checkboxs_expanded: bool,
    pub for_objects_expanded: bool,
}

/// The transition of the search page: from `s`, message `m` leads to `t`.
pub open spec fn search_next(s: SearchPage, m: SearchMsg, t: SearchPage) -> bool {
    let a = s.search_arg;
    match m {
        SearchMsg::ChangeSpec(id) => t == (SearchPage { search_arg: SearchArg { spec_id: id, ..a }, ..s }),
        SearchMsg::ByParams => t == (SearchPage { search_arg: SearchArg { by_params: !a.by_params, ..a }, ..s }),
        SearchMsg::BySpecs => t == (SearchPage { search_arg: SearchArg { by_specs: !a.by_specs, ..a }, ..s }),
        SearchMsg::ByKeywords => t == (SearchPage { search_arg: SearchArg { by_keywords: !a.by_keywords, ..a }, ..s }),
        SearchMsg::OnlyFavorite => t == (SearchPage { search_arg: SearchArg { favorite: !a.favorite, ..a }, ..s }),
        SearchMsg::ForCompany(v) => t == (SearchPage { search_arg: SearchArg { company_uuid: wrapped(v), ..a }, ..s }),
        SearchMsg::ForStandard(v) => t == (SearchPage { search_arg: SearchArg { standard_uuid: wrapped(v), ..a }, ..s }),
        SearchMsg::ForUser(v) => t == (SearchPage { search_arg: SearchArg { user_uuid: wrapped(v), ..a }, ..s }),
        SearchMsg::ToggleCheckboxs => t == (SearchPage { checkboxs_expanded: !s.checkboxs_expanded, ..s }),
        SearchMsg::ToggleForObjects => t == (SearchPage { for_objects_expanded: !s.for_objects_expanded, ..s }),
        SearchMsg::Ignore => t == s,
    }
}

/// The search page as created with the kept text `history_search`: the
/// first catalog section, no filter, the kept text (empty where none was
/// kept) as what to search for; a kept text is then forgotten, so that it
/// is taken over once.
pub open spec fn created(history_search: Option<String>, p: SearchPage, reqs: Seq<HomeRequest>) -> bool {
    &&& p.search_arg.search@ == (match history_search {
        Some(t) => t@,
        None => Seq::<char>::empty(),
    })
    &&& p.search_arg.spec_id == 1
    &&& !p.search_arg.by_params && !p.search_arg.by_specs && !p.search_arg.by_keywords && !p.search_arg.favorite
    &&& p.search_arg.company_uuid.is_none() && p.search_arg.standard_uuid.is_none() && p.search_arg.user_uuid.is_none()
    &&& !p.checkboxs_expanded
    &&& !p.for_objects_expanded
    &&& reqs == (if history_search.is_some() { seq![HomeRequest::ClearHistorySearch] } else { Seq::empty() })
}

/// Handover law: the text typed on the home page is what the search page
/// opened from it searches for, and it is taken over once: afterwards no
/// text is kept.
pub proof fn lemma_search_text_taken_over_once(
    h: Home,
    h2: Home,
    acts: Seq<HomeAction>,
    stored: Option<String>,
    p: SearchPage,
    reqs: Seq<HomeRequest>,
)
    requires
        home_next(h, HomeMsg::OpenSearchPage, h2, acts),
        acts[0] matches HomeAction::Query(r) && created(stored_after(stored, r), p, reqs),
    ensures
        p.search_arg.search@ == h.search_text@,
        reqs.len() == 1 && stored_after(Some(h.search_text), reqs[0]).is_none(),
{
}

impl SearchPage {
    /// The search page as first created with the text kept by the home
    /// page, if any; see `created`. The requests go to the storage.
    pub fn new(history_search: Option<String>) -> (r: (Self, Vec<HomeRequest>))
        ensures
            created(history_search, r.0, r.1@),
    {
        let mut reqs: Vec<HomeRequest> = Vec::new();
        let search = match history_search {
            Some(t) => {
                reqs.push(HomeRequest::ClearHistorySearch);
                t
            },
            None => String::new(),
        };
        let page = SearchPage {
            search_arg: SearchArg {
                search,
                spec_id: 1,
                by_params: false,
                by_specs: false,
                by_keywords: false,
                favorite: false,
                company_uuid: None,
                standard_uuid: None,
                user_uuid: None,
            },
            checkboxs_expanded: false,
            for_objects_expanded: false,
        };
        (page, reqs)
    }

    /// Handles one message; see `search_next`. The page is drawn again after
    /// each.
    pub fn update(&mut self, msg: SearchMsg)
        ensures
            search_next(*old(self), msg, *final(self)),
    {
        match msg {
            SearchMsg::ChangeSpec(id) => {
                self.search_arg.spec_id = id;
            },
            SearchMsg::ByParams => {
                self.search_arg.by_params = !self.search_arg.by_params;
            },
            SearchMsg::BySpecs => {
                self.search_arg.by_specs = !self.search_arg.by_specs;
            },
            SearchMsg::ByKeywords => {
                self.search_arg.by_keywords = !self.search_arg.by_keywords;
            },
            SearchMsg::OnlyFavorite => {
                self.search_arg.favorite = !self.search_arg.favorite;
            },
            SearchMsg::ForCompany(v) => {
                self.search_arg.company_uuid = wraps_text(v);
            },
            SearchMsg::ForStandard(v) => {
                self.search_arg.standard_uuid = wraps_text(v);
            },
            SearchMsg::ForUser(v) => {
                self.search_arg.user_uuid = wraps_text(v);
            },
            SearchMsg::ToggleCheckboxs => {
                self.checkboxs_expanded = !self.checkboxs_expanded;
            },
            SearchMsg::ToggleForObjects => {
                self.for_objects_expanded = !self.for_objects_expanded;
            },
            SearchMsg::Ignore => {},
        }
    }
}

} // verus!
