//! Route fragments of the single page application.

use vstd::prelude::*;

verus! {

/// The characters of `s` from its first `'#'` on, or `"#/"` where `s`
/// holds no `'#'`.
pub open spec fn fragment_of(s: Seq<char>) -> Seq<char>
    decreases s.len(),
{
    if s.len() == 0 {
        seq!['#', '/']
    } else if s[0] == '#' {
        s
    } else {
        fragment_of(s.drop_first())
    }
}

/// Keeps of a route only its fragment part (from the first `'#'`), or
/// `"#/"` where the route holds no `'#'`.
pub fn fix_fragment_routes(route: &mut String)
    ensures
        final(route)@ == fragment_of(old(route)@),
{
    let r = route.as_str();
    let n = r.unicode_len();
    let mut i: usize = 0;
    assert(r@.subrange(0, n as int) == r@);
    while i < n
        invariant
            n == r@.len(),
            r@ == old(route)@,
            i <= n,
            fragment_of(r@) == fragment_of(r@.subrange(i as int, n as int)),
        decreases n - i,
    {
        if r.get_char(i) == '#' {
            let fixed = r.substring_char(i, n).to_owned();
            *route = fixed;
            return;
        }
        assert(r@.subrange(i as int, n as int).drop_first() == r@.subrange(i + 1, n as int));
        i = i + 1;
    }
    *route = "#/".to_owned();
    proof {
        reveal_strlit("#/");
    }
}


/// What remains of `s` once every leading copy of `prefix` is taken off
/// (`s` itself for an empty `prefix`).
pub open spec fn strip_leading(s: Seq<char>, prefix: Seq<char>) -> Seq<char>
    decreases s.len(),
{
    if prefix.len() > 0 && prefix.len() <= s.len() && s.subrange(0, prefix.len() as int) == prefix {
        strip_leading(s.subrange(prefix.len() as int, s.len() as int), prefix)
    } else {
        s
    }
}

/// The object named by a route fragment: the fragment without every leading
/// copy of the page prefix, such as `"#/component/settings/"`.
pub fn route_target(fragment: &str, prefix: &str) -> (target: String)
    ensures
        target@ == strip_leading(fragment@, prefix@),
{
    let n = fragment.unicode_len();
    let p = prefix.unicode_len();
    if p == 0 {
        return fragment.to_owned();
    }
    let mut start: usize = 0;
    assert(fragment@.subrange(0, n as int) == fragment@);
    loop
        invariant
            n == fragment@.len(),
            p == prefix@.len(),
            p > 0,
            start <= n,
            strip_leading(fragment@, prefix@) == strip_leading(fragment@.subrange(start as int, n as int), prefix@),
        decreases n - start,
    {
        let rest = fragment.substring_char(start, n);
        if p <= n - start {
            let head = rest.substring_char(0, p);
            if same_text(head, prefix) {
                assert(rest@.subrange(p as int, rest@.len() as int) == fragment@.subrange(start + p, n as int));
                start = start + p;
                continue;
            }
        }
        return rest.to_owned();
    }
}

/// Whether two strings hold the same characters.
pub fn same_text(a: &str, b: &str) -> (eq: bool)
    ensures
        eq == (a@ == b@),
{
    let n = a.unicode_len();
    if n != b.unicode_len() {
        return false;
    }
    let mut i: usize = 0;
    while i < n
        invariant
            n == a@.len(),
            n == b@.len(),
            i <= n,
            forall|j: int| 0 <= j < i ==> a@[j] == b@[j],
        decreases n - i,
    {
        if a.get_char(i) != b.get_char(i) {
            return false;
        }
        i = i + 1;
    }
    assert(a@ == b@);
    true
}


/// The pages of the application.
pub enum AppRoute {
    Login,
    Register,
    ComponentSettings(String),
    CreateComponent,
    ShowComponent(String),
    Notifications,
    Settings,
    CompanySettings(String),
    CreateCompany,
    ShowCompany(String),
    ShowSupplierCompany(String),
    StandardSettings(String),
    CreateStandard,
    ShowStandard(String),
    CreateService,
    ServiceSettings(String),
    ShowService(String),
    Profile(String),
    SearchPage,
    Home,
}

/// The fragment that addresses a page.
pub open spec fn route_path(r: AppRoute) -> Seq<char> {
    match r {
        AppRoute::Login => "#/login"@,
        AppRoute::Register => "#/register"@,
        AppRoute::ComponentSettings(u) => "#/component/settings/"@ + u@,
        AppRoute::CreateComponent => "#/component/create"@,
        AppRoute::ShowComponent(u) => "#/component/"@ + u@,
        AppRoute::Notifications => "#/notifications"@,
        AppRoute::Settings => "#/settings"@,
        AppRoute::CompanySettings(u) => "#/company/settings/"@ + u@,
        AppRoute::CreateCompany => "#/company/create"@,
        AppRoute::ShowCompany(u) => "#/company/"@ + u@,
        AppRoute::ShowSupplierCompany(u) => "#/supplier/"@ + u@,
        AppRoute::StandardSettings(u) => "#/standard/settings/"@ + u@,
        AppRoute::CreateStandard => "#/standard/create"@,
        AppRoute::ShowStandard(u) => "#/standard/"@ + u@,
        AppRoute::CreateService => "#/service/create"@,
        AppRoute::ServiceSettings(u) => "#/service/settings/"@ + u@,
        AppRoute::ShowService(u) => "#/service/"@ + u@,
        AppRoute::Profile(name) => "#/@"@ + name@,
        AppRoute::SearchPage => "#/search"@,
        AppRoute::Home => "#/"@,
    }
}

impl AppRoute {
    /// The fragment that addresses the page; see `route_path`.
    pub fn to_path(&self) -> (p: String)
        ensures
            p@ == route_path(*self),
    {
        match self {
            AppRoute::Login => "#/login".to_owned(),
            AppRoute::Register => "#/register".to_owned(),
            AppRoute::ComponentSettings(u) => "#/component/settings/".to_owned().concat(u.as_str()),
            AppRoute::CreateComponent => "#/component/create".to_owned(),
            AppRoute::ShowComponent(u) => "#/component/".to_owned().concat(u.as_str()),
            AppRoute::Notifications => "#/notifications".to_owned(),
            AppRoute::Settings => "#/settings".to_owned(),
            AppRoute::CompanySettings(u) => "#/company/settings/".to_owned().concat(u.as_str()),
            AppRoute::CreateCompany => "#/company/create".to_owned(),
            AppRoute::ShowCompany(u) => "#/company/".to_owned().concat(u.as_str()),
            AppRoute::ShowSupplierCompany(u) => "#/supplier/".to_owned().concat(u.as_str()),
            AppRoute::StandardSettings(u) => "#/standard/settings/".to_owned().concat(u.as_str()),
            AppRoute::CreateStandard => "#/standard/create".to_owned(),
            AppRoute::ShowStandard(u) => "#/standard/".to_owned().concat(u.as_str()),
            AppRoute::CreateService => "#/service/create".to_owned(),
            AppRoute::ServiceSettings(u) => "#/service/settings/".to_owned().concat(u.as_str()),
            AppRoute::ShowService(u) => "#/service/".to_owned().concat(u.as_str()),
            AppRoute::Profile(name) => "#/@".to_owned().concat(name.as_str()),
            AppRoute::SearchPage => "#/search".to_owned(),
            AppRoute::Home => "#/".to_owned(),
        }
    }
}

/// Route law: reading the object back from the fragment of a settings or
/// show page gives the uuid it was built from, where that uuid does not
/// itself start with the page prefix.
pub proof fn lemma_target_of_path(prefix: Seq<char>, uuid: Seq<char>)
    requires
        prefix.len() > 0,
        !(prefix.len() <= uuid.len() && uuid.subrange(0, prefix.len() as int) == prefix),
    ensures
        strip_leading(prefix + uuid, prefix) == uuid,
{
    let s = prefix + uuid;
    assert(s.subrange(0, prefix.len() as int) == prefix);
    assert(s.subrange(prefix.len() as int, s.len() as int) == uuid);
    reveal_with_fuel(strip_leading, 2);
}

} // verus!
