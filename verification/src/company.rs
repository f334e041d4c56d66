//! A company as the company pages read it, and what they show of it.

use vstd::prelude::*;

verus! {

/// A company with the data its pages use.
pub struct CompanyInfo {
    pub uuid: String,
    pub orgname: String,
    pub shortname: String,
    pub inn: String,
    pub phone: String,
    pub email: String,
    pub description: String,
    pub address: String,
    pub site_url: String,
    pub time_zone: String,
    pub region_id: usize,
    pub region_name: String,
    pub company_type_id: usize,
    pub company_type_shortname: String,
    pub owner_user_uuid: String,
    pub subscribers: usize,
    pub is_followed: bool,
    /// The uuids of the company's certificates.
    pub company_certificates: Vec<String>,
    /// The uuids of the company's representations.
    pub company_represents: Vec<String>,
    /// The uuids of the company's spheres of activity.
    pub company_specs: Vec<String>,
}

/// The company type "Other legal entity", whose name is not shown.
pub open spec fn other_legal_entity() -> usize {
    10
}

/// The region "Other", which is not shown without an address.
pub open spec fn other_region() -> usize {
    8
}

/// How a company's name and type are arranged in its title.
pub enum TitleOrder {
    /// The name alone.
    NameOnly,
    /// The type, then the name.
    TypeThenName,
    /// The name, then the type.
    NameThenType,
}

/// The arrangement of a title: the name alone for an "Other legal entity",
/// the type first in Russian, the name first in every other language.
pub open spec fn title_order_of(company_type_id: usize, lang: Seq<char>) -> TitleOrder {
    if company_type_id == other_legal_entity() {
        TitleOrder::NameOnly
    } else if lang == "ru"@ {
        TitleOrder::TypeThenName
    } else {
        TitleOrder::NameThenType
    }
}

/// The arrangement of a company's title for the page language `lang`
/// (`None` where none is set); see `title_order_of`.
pub fn to_dispaly_order(company_type_id: usize, lang: Option<String>) -> (r: TitleOrder)
    ensures
        r == title_order_of(company_type_id, match lang { Some(l) => l@, None => Seq::empty() }),
{
    if company_type_id == 10 {
        return TitleOrder::NameOnly;
    }
    let lang = match lang {
        Some(l) => l,
        None => String::new(),
    };
    let ru = "ru".to_owned();
    proof {
        reveal_strlit("ru");
    }
    if lang == ru {
        TitleOrder::TypeThenName
    } else {
        TitleOrder::NameThenType
    }
}

/// A kind of contact line on a company card.
pub enum ContactKind {
    RegNumber,
    Email,
    Phone,
    Location,
    Site,
}

/// The contact lines of a company card, in order: registration number,
/// e-mail, phone, location and site, each only where it is not blank; the
/// location is the address, or the region where no address is given, and
/// is left out for the region "Other" without an address.
pub open spec fn contacts_of(c: CompanyInfo) -> Seq<(ContactKind, Seq<char>)> {
    (if c.inn@.len() > 0 { seq![(ContactKind::RegNumber, c.inn@)] } else { Seq::empty() })
        + (if c.email@.len() > 0 { seq![(ContactKind::Email, c.email@)] } else { Seq::empty() })
        + (if c.phone@.len() > 0 { seq![(ContactKind::Phone, c.phone@)] } else { Seq::empty() })
        + (if c.region_id == other_region() && c.address@.len() == 0 {
            Seq::empty()
        } else if c.address@.len() == 0 {
            seq![(ContactKind::Location, c.region_name@)]
        } else {
            seq![(ContactKind::Location, c.address@)]
        })
        + (if c.site_url@.len() > 0 { seq![(ContactKind::Site, c.site_url@)] } else { Seq::empty() })
}

/// The contact lines of a company card; see `contacts_of`.
pub fn contact_block(c: &CompanyInfo) -> (lines: Vec<(ContactKind, String)>)
    ensures
        lines@.map_values(|l: (ContactKind, String)| (l.0, l.1@)) == contacts_of(*c),
{
    let mut lines: Vec<(ContactKind, String)> = Vec::new();
    let ghost view = |l: (ContactKind, String)| (l.0, l.1@);
    let ghost want = contacts_of(*c);
    let ghost mut prefix = Seq::<(ContactKind, Seq<char>)>::empty();
    if !c.inn.as_str().is_empty() {
        lines.push((ContactKind::RegNumber, c.inn.clone()));
    }
    assert(lines@.map_values(view) =~= (if c.inn@.len() > 0 { seq![(ContactKind::RegNumber, c.inn@)] } else { Seq::empty() }));
    proof { prefix = lines@.map_values(view); }
    if !c.email.as_str().is_empty() {
        lines.push((ContactKind::Email, c.email.clone()));
    }
    assert(lines@.map_values(view) =~= prefix + (if c.email@.len() > 0 { seq![(ContactKind::Email, c.email@)] } else { Seq::empty() }));
    proof { prefix = lines@.map_values(view); }
    if !c.phone.as_str().is_empty() {
        lines.push((ContactKind::Phone, c.phone.clone()));
    }
    assert(lines@.map_values(view) =~= prefix + (if c.phone@.len() > 0 { seq![(ContactKind::Phone, c.phone@)] } else { Seq::empty() }));
    proof { prefix = lines@.map_values(view); }
    if !(c.region_id == 8 && c.address.as_str().is_empty()) {
        if c.address.as_str().is_empty() {
            lines.push((ContactKind::Location, c.region_name.clone()));
        } else {
            lines.push((ContactKind::Location, c.address.clone()));
        }
    }
    assert(lines@.map_values(view) =~= prefix + (if c.region_id == other_region() && c.address@.len() == 0 {
        Seq::empty()
    } else if c.address@.len() == 0 {
        seq![(ContactKind::Location, c.region_name@)]
    } else {
        seq![(ContactKind::Location, c.address@)]
    }));
    proof { prefix = lines@.map_values(view); }
    if !c.site_url.as_str().is_empty() {
        lines.push((ContactKind::Site, c.site_url.clone()));
    }
    assert(lines@.map_values(view) =~= prefix + (if c.site_url@.len() > 0 { seq![(ContactKind::Site, c.site_url@)] } else { Seq::empty() }));
    lines
}

/// Contact law: no line of a company card is blank.
pub proof fn lemma_contacts_never_blank(c: CompanyInfo, i: int)
    requires
        0 <= i < contacts_of(c).len(),
        c.region_name@.len() > 0,
    ensures
        contacts_of(c)[i].1.len() > 0,
{
    let a = if c.inn@.len() > 0 { seq![(ContactKind::RegNumber, c.inn@)] } else { Seq::empty() };
    let b = if c.email@.len() > 0 { seq![(ContactKind::Email, c.email@)] } else { Seq::empty() };
    let p = if c.phone@.len() > 0 { seq![(ContactKind::Phone, c.phone@)] } else { Seq::empty() };
    let l = if c.region_id == other_region() && c.address@.len() == 0 {
        Seq::empty()
    } else if c.address@.len() == 0 {
        seq![(ContactKind::Location, c.region_name@)]
    } else {
        seq![(ContactKind::Location, c.address@)]
    };
    let w = if c.site_url@.len() > 0 { seq![(ContactKind::Site, c.site_url@)] } else { Seq::empty() };
    assert(contacts_of(c) == a + b + p + l + w);
    assert(forall|k: int| 0 <= k < a.len() ==> a[k].1.len() > 0);
    assert(forall|k: int| 0 <= k < b.len() ==> b[k].1.len() > 0);
    assert(forall|k: int| 0 <= k < p.len() ==> p[k].1.len() > 0);
    assert(forall|k: int| 0 <= k < l.len() ==> l[k].1.len() > 0);
    assert(forall|k: int| 0 <= k < w.len() ==> w[k].1.len() > 0);
}

/// The edited data of a company, sent when it is saved.
pub struct CompanyUpdateInfo {
    pub orgname: Option<String>,
    pub shortname: Option<String>,
    pub inn: Option<String>,
    pub phone: Option<String>,
    pub email: Option<String>,
    pub description: Option<String>,
    pub address: Option<String>,
    pub site_url: Option<String>,
    pub time_zone: Option<String>,
    pub region_id: Option<i64>,
    pub company_type_id: Option<i64>,
}

/// The empty form.
pub open spec fn empty_company_form(f: CompanyUpdateInfo) -> bool {
    &&& f.orgname.is_none() && f.shortname.is_none() && f.inn.is_none() && f.phone.is_none()
    &&& f.email.is_none() && f.description.is_none() && f.address.is_none() && f.site_url.is_none()
    &&& f.time_zone.is_none() && f.region_id.is_none() && f.company_type_id.is_none()
}

/// The form filled with a company's data: every field set.
pub open spec fn company_form_of(d: CompanyInfo) -> CompanyUpdateInfo {
    CompanyUpdateInfo {
        orgname: Some(d.orgname),
        shortname: Some(d.shortname),
        inn: Some(d.inn),
        phone: Some(d.phone),
        email: Some(d.email),
        description: Some(d.description),
        address: Some(d.address),
        site_url: Some(d.site_url),
        time_zone: Some(d.time_zone),
        region_id: Some(d.region_id as i64),
        company_type_id: Some(d.company_type_id as i64),
    }
}

/// A copy of an optional text.
pub fn copy_text(t: &Option<String>) -> (r: Option<String>)
    ensures
        r == *t,
{
    match t {
        Some(v) => Some(v.clone()),
        None => None,
    }
}

impl CompanyUpdateInfo {
    /// The empty form.
    pub fn empty() -> (f: Self)
        ensures
            empty_company_form(f),
    {
        CompanyUpdateInfo {
            orgname: None,
            shortname: None,
            inn: None,
            phone: None,
            email: None,
            description: None,
            address: None,
            site_url: None,
            time_zone: None,
            region_id: None,
            company_type_id: None,
        }
    }

    /// The form filled with a company's data; see `company_form_of`.
    pub fn from(d: &CompanyInfo) -> (f: Self)
        ensures
            f == company_form_of(*d),
    {
        CompanyUpdateInfo {
            orgname: Some(d.orgname.clone()),
            shortname: Some(d.shortname.clone()),
            inn: Some(d.inn.clone()),
            phone: Some(d.phone.clone()),
            email: Some(d.email.clone()),
            description: Some(d.description.clone()),
            address: Some(d.address.clone()),
            site_url: Some(d.site_url.clone()),
            time_zone: Some(d.time_zone.clone()),
            region_id: Some(d.region_id as i64),
            company_type_id: Some(d.company_type_id as i64),
        }
    }

    /// A copy of the form.
    pub fn duplicate(&self) -> (f: Self)
        ensures
            f == *self,
    {
        CompanyUpdateInfo {
            orgname: copy_text(&self.orgname),
            shortname: copy_text(&self.shortname),
            inn: copy_text(&self.inn),
            phone: copy_text(&self.phone),
            email: copy_text(&self.email),
            description: copy_text(&self.description),
            address: copy_text(&self.address),
            site_url: copy_text(&self.site_url),
            time_zone: copy_text(&self.time_zone),
            region_id: self.region_id,
            company_type_id: self.company_type_id,
        }
    }
}

/// The spheres of activity of a company are shown only where it has some;
/// the block then lists them, in their order.
pub fn spec_block(c: &CompanyInfo) -> (specs: Option<Vec<String>>)
    ensures
        c.company_specs@.len() == 0 ==> specs.is_none(),
        c.company_specs@.len() > 0 ==> specs.is_some() && specs.unwrap()@ == c.company_specs@,
{
    if c.company_specs.len() == 0 {
        None
    } else {
        Some(crate::common::copy_texts(&c.company_specs))
    }
}

} // verus!
