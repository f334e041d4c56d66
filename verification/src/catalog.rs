//! The catalog of components, shown as a list or as boxes, with a
//! bookmark on each component.

use vstd::prelude::*;

verus! {

/// How the catalog lays out its components.
#[derive(PartialEq, Eq, Structural, Clone, Copy)]
pub enum ListState {
    List,
    Box,
}

/// A company as a supplier entry names it.
pub struct SlimCompany {
    pub uuid: String,
    pub shortname: String,
    pub is_supplier: bool,
}

/// A supplier of a component.
pub struct Supplier {
    pub supplier: SlimCompany,
    pub component_uuid: String,
    pub description: String,
}

/// A component as the catalog shows it; `updated_at` in unix seconds.
pub struct ShowedComponent {
    pub uuid: String,
    pub name: String,
    pub description: String,
    pub type_access_id: usize,
    pub is_followed: bool,
    pub is_base: bool,
    pub updated_at: i64,
    pub component_suppliers: Vec<Supplier>,
}

/// A request to the server.
pub enum CatalogRequest {
    RawList,
    AddFav { component_uuid: String },
    DeleteFav { component_uuid: String },
}

/// What the catalog reacts to; the list arrives decoded.
pub enum Msg {
    AddOne,
    SwitchShowType,
    UpdateList(Vec<ShowedComponent>),
    AddFav(String),
    DelFav(String),
    GetList,
    /// The server answered a bookmark change (whatever it answered).
    FavUpdated,
}

/// The state of the catalog.
pub struct Catalog {
    pub value: i64,
    pub show_type: ListState,
    pub list: Vec<ShowedComponent>,
}

/// The other layout.
pub open spec fn switched(l: ListState) -> ListState {
    match l {
        ListState::Box => ListState::List,
        ListState::List => ListState::Box,
    }
}

/// The messages that the catalog cannot take in state `s` (it would
/// fail): a counter that would leave the range of `i64`.
pub open spec fn accepts(s: Catalog, m: Msg) -> bool {
    m is AddOne ==> s.value < i64::MAX
}

/// The transition of the catalog: from `s`, message `m` leads to `t` and
/// asks for `reqs`.
pub open spec fn next(s: Catalog, m: Msg, t: Catalog, reqs: Seq<CatalogRequest>) -> bool {
    match m {
        Msg::AddOne => t == (Catalog { value: (s.value + 1) as i64, ..s }) && reqs.len() == 0,
        Msg::SwitchShowType => t == (Catalog { show_type: switched(s.show_type), ..s }) && reqs.len() == 0,
        Msg::UpdateList(list) => t == (Catalog { list, ..s }) && reqs.len() == 0,
        Msg::AddFav(u) => t == s && reqs == seq![CatalogRequest::AddFav { component_uuid: u }],
        Msg::DelFav(u) => t == s && reqs == seq![CatalogRequest::DeleteFav { component_uuid: u }],
        Msg::GetList => t == s && reqs == seq![CatalogRequest::RawList],
        Msg::FavUpdated => t == s && reqs == seq![CatalogRequest::RawList],
    }
}

/// Layout law: switching the layout twice gives back the layout shown.
pub proof fn lemma_switch_twice(s: Catalog, t: Catalog, r1: Seq<CatalogRequest>, u: Catalog, r2: Seq<CatalogRequest>)
    requires
        next(s, Msg::SwitchShowType, t, r1),
        next(t, Msg::SwitchShowType, u, r2),
    ensures
        u == s,
        t.show_type != s.show_type,
{
}

/// Bookmark law: a bookmark change is followed, once the server answers,
/// by asking for the list again, so the list shows the new bookmark.
pub proof fn lemma_bookmark_refetches(
    s: Catalog,
    u: String,
    add: bool,
    t: Catalog,
    r1: Seq<CatalogRequest>,
    w: Catalog,
    r2: Seq<CatalogRequest>,
)
    requires
        next(s, if add { Msg::AddFav(u) } else { Msg::DelFav(u) }, t, r1),
        next(t, Msg::FavUpdated, w, r2),
    ensures
        r1.len() == 1,
        r2 == seq![CatalogRequest::RawList],
        w == s,
{
}

/// Bookmark request law: adding a bookmark on component `u` asks for
/// exactly the bookmark of `u`, removing one asks for exactly its removal,
/// and no other message asks for either.
pub proof fn lemma_bookmark_requests(s: Catalog, m: Msg, t: Catalog, reqs: Seq<CatalogRequest>, i: int)
    requires
        next(s, m, t, reqs),
        0 <= i < reqs.len(),
    ensures
        m matches Msg::AddFav(u) ==> reqs == seq![CatalogRequest::AddFav { component_uuid: u }],
        m matches Msg::DelFav(u) ==> reqs == seq![CatalogRequest::DeleteFav { component_uuid: u }],
        reqs[i] matches CatalogRequest::AddFav { component_uuid } ==> m == Msg::AddFav(component_uuid),
        reqs[i] matches CatalogRequest::DeleteFav { component_uuid } ==> m == Msg::DelFav(component_uuid),
{
}

impl Catalog {
    /// The catalog as first created: an empty list, laid out as a list.
    pub fn new() -> (s: Self)
        ensures
            s.value == 0,
            s.show_type == ListState::List,
            s.list@.len() == 0,
    {
        Catalog { value: 0, show_type: ListState::List, list: Vec::new() }
    }

    /// What showing the catalog asks for: the list, on the first showing.
    pub fn on_render(&self, first_render: bool) -> (reqs: Vec<CatalogRequest>)
        ensures
            reqs@ == (if first_render { seq![CatalogRequest::RawList] } else { Seq::<CatalogRequest>::empty() }),
    {
        let mut reqs: Vec<CatalogRequest> = Vec::new();
        if first_render {
            reqs.push(CatalogRequest::RawList);
        }
        reqs
    }

    /// Whether the components are laid out as a list.
    pub fn show_list(&self) -> (r: bool)
        ensures
            r == (self.show_type == ListState::List),
    {
        self.show_type == ListState::List
    }

    /// Handles one message; see `next`. The catalog is drawn again after each.
    pub fn update(&mut self, msg: Msg) -> (reqs: Vec<CatalogRequest>)
        requires
            accepts(*old(self), msg),
        ensures
            next(*old(self), msg, *final(self), reqs@),
    {
        let mut reqs: Vec<CatalogRequest> = Vec::new();
        match msg {
            Msg::AddOne => {
                self.value = self.value + 1;
            },
            Msg::SwitchShowType => {
                self.show_type = match self.show_type {
                    ListState::Box => ListState::List,
                    ListState::List => ListState::Box,
                };
            },
            Msg::UpdateList(list) => {
                self.list = list;
            },
            Msg::AddFav(u) => {
                reqs.push(CatalogRequest::AddFav { component_uuid: u });
            },
            Msg::DelFav(u) => {
                reqs.push(CatalogRequest::DeleteFav { component_uuid: u });
            },
            Msg::GetList => {
                reqs.push(CatalogRequest::RawList);
            },
            Msg::FavUpdated => {
                reqs.push(CatalogRequest::RawList);
            },
        }
        reqs
    }
}

/// What a catalog entry reacts to.
pub enum ItemMsg {
    AddOne,
    TriggerFav,
}

/// What an entry asks of the catalog: to bookmark it, or to drop its
/// bookmark (both sent with an empty text).
pub enum ItemEvent {
    AddFav(String),
    DelFav(String),
}

/// One entry of the catalog, by its followed flag and the layout.
pub struct ListItem {
    pub value: i64,
    pub is_followed: bool,
    pub show_list: bool,
}

impl ListItem {
    /// An entry as first shown.
    pub fn new(is_followed: bool, show_list: bool) -> (s: Self)
        ensures
            s.value == 0 && s.is_followed == is_followed && s.show_list == show_list,
    {
        ListItem { value: 0, is_followed, show_list }
    }

    /// Handles one message: the bookmark toggles through the catalog, the
    /// counter counts. The entry is drawn again after each.
    pub fn update(&mut self, msg: ItemMsg) -> (ev: Option<ItemEvent>)
        requires
            msg is AddOne ==> old(self).value < i64::MAX,
        ensures
            match msg {
                ItemMsg::AddOne => *final(self) == (ListItem { value: (old(self).value + 1) as i64, ..*old(self) })
                    && ev.is_none(),
                ItemMsg::TriggerFav => *final(self) == *old(self) && (match ev {
                    Some(ItemEvent::AddFav(t)) => !old(self).is_followed && t@.len() == 0,
                    Some(ItemEvent::DelFav(t)) => old(self).is_followed && t@.len() == 0,
                    None => false,
                }),
            },
    {
        match msg {
            ItemMsg::AddOne => {
                self.value = self.value + 1;
                None
            },
            ItemMsg::TriggerFav => {
                if !self.is_followed {
                    Some(ItemEvent::AddFav(String::new()))
                } else {
                    Some(ItemEvent::DelFav(String::new()))
                }
            },
        }
    }

    /// Takes the layout and followed flag given; the entry is drawn again
    /// only when either changed.
    pub fn change(&mut self, show_list: bool, is_followed: bool) -> (redraw: bool)
        ensures
            redraw == (show_list != old(self).show_list || is_followed != old(self).is_followed),
            redraw ==> *final(self) == (ListItem { show_list, is_followed, ..*old(self) }),
            !redraw ==> *final(self) == *old(self),
    {
        if self.show_list != show_list || self.is_followed != is_followed {
            self.show_list = show_list;
            self.is_followed = is_followed;
            true
        } else {
            false
        }
    }
}

/// A box of the catalog, with its counter.
pub struct BoxItem {
    pub value: i64,
}

impl BoxItem {
    /// A box as first shown.
    pub fn new() -> (s: Self)
        ensures
            s.value == 0,
    {
        BoxItem { value: 0 }
    }

    /// Counts one more; the box is drawn again.
    pub fn add_one(&mut self) -> (redraw: bool)
        requires
            old(self).value < i64::MAX,
        ensures
            final(self).value == old(self).value + 1,
            redraw,
    {
        self.value = self.value + 1;
        true
    }
}

/// The placeholder page of components, with its counter.
pub struct ComponentTemp {
    pub value: i64,
}

impl ComponentTemp {
    /// The page as first shown.
    pub fn new() -> (s: Self)
        ensures
            s.value == 0,
    {
        ComponentTemp { value: 0 }
    }

    /// Counts one more; the page is drawn again.
    pub fn add_one(&mut self) -> (redraw: bool)
        requires
            old(self).value < i64::MAX,
        ensures
            final(self).value == old(self).value + 1,
            redraw,
    {
        self.value = self.value + 1;
        true
    }

    /// The page takes no properties; it is never drawn again for them.
    pub fn change(&mut self) -> (redraw: bool)
        ensures
            !redraw,
            *final(self) == *old(self),
    {
        false
    }
}

} // verus!
