//! A user's certificates: the list with the ones removed on the page kept
//! out of sight, one certificate with its description, and the card that
//! uploads a new one.

use vstd::prelude::*;
use crate::common::{DownloadFile, UploadTicket};
use crate::route::same_text;

verus! {

/// A certificate of a user: its file and description.
pub struct UserCertificate {
    pub user_uuid: String,
    pub file: DownloadFile,
    pub description: String,
}

impl UserCertificate {
    /// A copy of the certificate.
    pub fn duplicate(&self) -> (r: Self)
        ensures
            r == *self,
    {
        UserCertificate { user_uuid: self.user_uuid.clone(), file: self.file.duplicate(), description: self.description.clone() }
    }
}

// ---------------------------------------------------------------------
// The list of certificates.

/// The list of a user's certificates. Those removed on this page (by the
/// uuid of their file) are no longer shown; each uuid is kept once.
pub struct UserCertificatesCard {
    pub user_uuid: String,
    pub certificates_len: usize,
    pub deleted_cert_list: Vec<String>,
}

/// The uuids of the removed certificates.
pub open spec fn deleted_set(c: UserCertificatesCard) -> Set<Seq<char>> {
    Set::new(|u: Seq<char>| exists|i: int| 0 <= i < c.deleted_cert_list@.len() && #[trigger] c.deleted_cert_list@[i]@ == u)
}

/// Each removed uuid is kept once.
pub open spec fn no_repeats(c: UserCertificatesCard) -> bool {
    forall|i: int, j: int|
        0 <= i < j < c.deleted_cert_list@.len() ==> #[trigger] c.deleted_cert_list@[i]@ != #[trigger] c.deleted_cert_list@[j]@
}

/// The certificates shown: those not removed, in their order.
pub open spec fn visible_of(certs: Seq<UserCertificate>, deleted: Set<Seq<char>>) -> Seq<UserCertificate>
    decreases certs.len(),
{
    if certs.len() == 0 {
        Seq::empty()
    } else {
        let rest = visible_of(certs.drop_last(), deleted);
        if deleted.contains(certs.last().file.uuid@) {
            rest
        } else {
            rest.push(certs.last())
        }
    }
}

/// What the list reacts to.
pub enum CardMsg {
    RemoveCertificate(String),
    Ignore,
}

/// Whether `uuid` is among the removed ones.
fn listed(list: &Vec<String>, uuid: &str) -> (r: bool)
    ensures
        r == exists|i: int| 0 <= i < list@.len() && #[trigger] list@[i]@ == uuid@,
{
    let n = list.len();
    let mut i: usize = 0;
    while i < n
        invariant
            n == list@.len(),
            i <= n,
            forall|k: int| 0 <= k < i ==> #[trigger] list@[k]@ != uuid@,
        decreases n - i,
    {
        if same_text(list[i].as_str(), uuid) {
            return true;
        }
        i = i + 1;
    }
    false
}

/// Hiding law: once a certificate is removed, it is no longer shown, and
/// every other certificate shown before still is.
pub proof fn lemma_removed_certificate_hidden(certs: Seq<UserCertificate>, deleted: Set<Seq<char>>, u: Seq<char>, c: UserCertificate)
    ensures
        !visible_of(certs, deleted.insert(u)).contains(c) || c.file.uuid@ != u,
        visible_of(certs, deleted).contains(c) && c.file.uuid@ != u ==> visible_of(certs, deleted.insert(u)).contains(c),
    decreases certs.len(),
{
    lemma_visible_not_deleted(certs, deleted.insert(u), c);
    if certs.len() > 0 {
        lemma_removed_certificate_hidden(certs.drop_last(), deleted, u, c);
        let r0 = visible_of(certs.drop_last(), deleted);
        let r1 = visible_of(certs.drop_last(), deleted.insert(u));
        if visible_of(certs, deleted).contains(c) && c.file.uuid@ != u {
            if r0.contains(c) {
                let k = choose|k: int| 0 <= k < r1.len() && r1[k] == c;
                if !deleted.insert(u).contains(certs.last().file.uuid@) {
                    assert(r1.push(certs.last())[k] == c);
                }
            } else {
                assert(c == certs.last());
                assert(!deleted.contains(certs.last().file.uuid@));
                assert(r1.push(certs.last())[r1.len() as int] == c);
            }
        }
    }
}

/// A shown certificate is never a removed one.
pub proof fn lemma_visible_not_deleted(certs: Seq<UserCertificate>, deleted: Set<Seq<char>>, c: UserCertificate)
    ensures
        visible_of(certs, deleted).contains(c) ==> !deleted.contains(c.file.uuid@),
    decreases certs.len(),
{
    if certs.len() > 0 {
        lemma_visible_not_deleted(certs.drop_last(), deleted, c);
        let r = visible_of(certs.drop_last(), deleted);
        if visible_of(certs, deleted).contains(c) && !deleted.contains(certs.last().file.uuid@) {
            let k = choose|k: int| 0 <= k < r.len() + 1 && r.push(certs.last())[k] == c;
            if k < r.len() {
                assert(r[k] == c);
            }
        }
    }
}

impl UserCertificatesCard {
    /// The list for the user `user_uuid` with `certificates_len`
    /// certificates, none removed.
    pub fn new(user_uuid: String, certificates_len: usize) -> (c: Self)
        ensures
            c.user_uuid == user_uuid,
            c.certificates_len == certificates_len,
            c.deleted_cert_list@.len() == 0,
            deleted_set(c) == Set::<Seq<char>>::empty(),
            no_repeats(c),
    {
        let c = UserCertificatesCard { user_uuid, certificates_len, deleted_cert_list: Vec::new() };
        assert(deleted_set(c) =~= Set::<Seq<char>>::empty());
        c
    }

    /// Handles one message: a removed certificate joins the removed ones.
    /// The list is drawn again after each.
    pub fn update(&mut self, msg: CardMsg)
        requires
            no_repeats(*old(self)),
        ensures
            no_repeats(*final(self)),
            final(self).user_uuid == old(self).user_uuid,
            final(self).certificates_len == old(self).certificates_len,
            match msg {
                CardMsg::RemoveCertificate(u) => deleted_set(*final(self)) == deleted_set(*old(self)).insert(u@),
                CardMsg::Ignore => *final(self) == *old(self),
            },
    {
        match msg {
            CardMsg::RemoveCertificate(u) => {
                let ghost before = *self;
                if !listed(&self.deleted_cert_list, u.as_str()) {
                    self.deleted_cert_list.push(u);
                    assert forall|i: int, j: int|
                        0 <= i < j < self.deleted_cert_list@.len() implies #[trigger] self.deleted_cert_list@[i]@
                            != #[trigger] self.deleted_cert_list@[j]@ by {
                        if j == self.deleted_cert_list@.len() - 1 {
                            assert(self.deleted_cert_list@[i] == before.deleted_cert_list@[i]);
                        } else {
                            assert(self.deleted_cert_list@[i] == before.deleted_cert_list@[i]);
                            assert(self.deleted_cert_list@[j] == before.deleted_cert_list@[j]);
                        }
                    }
                    assert forall|x: Seq<char>| deleted_set(*self).contains(x) == deleted_set(before).insert(u@).contains(x) by {
                        if deleted_set(before).contains(x) {
                            let k = choose|k: int| 0 <= k < before.deleted_cert_list@.len() && #[trigger] before.deleted_cert_list@[k]@ == x;
                            assert(self.deleted_cert_list@[k] == before.deleted_cert_list@[k]);
                        }
                        if x == u@ {
                            assert(self.deleted_cert_list@[before.deleted_cert_list@.len() as int]@ == x);
                        }
                        if deleted_set(*self).contains(x) {
                            let k = choose|k: int| 0 <= k < self.deleted_cert_list@.len() && #[trigger] self.deleted_cert_list@[k]@ == x;
                            if k < before.deleted_cert_list@.len() {
                                assert(self.deleted_cert_list@[k] == before.deleted_cert_list@[k]);
                            }
                        }
                    }
                    assert(deleted_set(*self) =~= deleted_set(before).insert(u@));
                } else {
                    assert(deleted_set(*self) =~= deleted_set(before).insert(u@));
                }
            },
            CardMsg::Ignore => {},
        }
    }

    /// Takes the user and the number of certificates given to the list; it is
    /// drawn again only when either changed.
    pub fn changed(&mut self, user_uuid: String, certificates_len: usize) -> (redraw: bool)
        ensures
            redraw == !(user_uuid@ == old(self).user_uuid@ && certificates_len == old(self).certificates_len),
            final(self).deleted_cert_list == old(self).deleted_cert_list,
            redraw ==> final(self).user_uuid == user_uuid && final(self).certificates_len == certificates_len,
            !redraw ==> *final(self) == *old(self),
    {
        if same_text(self.user_uuid.as_str(), user_uuid.as_str()) && self.certificates_len == certificates_len {
            false
        } else {
            self.user_uuid = user_uuid;
            self.certificates_len = certificates_len;
            true
        }
    }

    /// The certificates to show; see `visible_of`.
    pub fn visible_certificates(&self, certificates: &Vec<UserCertificate>) -> (r: Vec<UserCertificate>)
        ensures
            r@ == visible_of(certificates@, deleted_set(*self)),
    {
        let mut r: Vec<UserCertificate> = Vec::new();
        let n = certificates.len();
        let mut i: usize = 0;
        assert(certificates@.subrange(0, 0) =~= Seq::<UserCertificate>::empty());
        while i < n
            invariant
                n == certificates@.len(),
                i <= n,
                r@ == visible_of(certificates@.subrange(0, i as int), deleted_set(*self)),
            decreases n - i,
        {
            assert(certificates@.subrange(0, i + 1).drop_last() =~= certificates@.subrange(0, i as int));
            let c = &certificates[i];
            let gone = listed(&self.deleted_cert_list, c.file.uuid.as_str());
            assert(gone == deleted_set(*self).contains(c.file.uuid@));
            if !gone {
                r.push(c.duplicate());
            }
            i = i + 1;
        }
        assert(certificates@.subrange(0, n as int) =~= certificates@);
        r
    }
}

// ---------------------------------------------------------------------
// One certificate.

/// What a certificate reacts to; replies arrive decoded, `Err` holding the
/// message of a failed reply.
pub enum ItemMsg {
    /// Save the description of the certificate with this file uuid.
    RequestUpdateDescription(String, String),
    /// Delete the certificate with this file uuid.
    RequestDeleteCert(String),
    GetUpdateResult(Result<bool, String>),
    GetDeleteCertResult(Result<bool, String>),
    UpdateDescription(String),
    ShowCert,
    ResponseError(String),
    ClearError,
    Ignore,
}

/// A request to the server or to the list that holds the certificate.
pub enum ItemRequest {
    UpdateDescription { file_uuid: String, description: String },
    Delete { file_uuid: String },
    /// Tell the list that the certificate with this file uuid was deleted.
    Deleted(String),
}

/// What a transition of a certificate asks for.
pub enum ItemAction {
    Query(ItemRequest),
    Send(ItemMsg),
}

/// The state of one certificate.
pub struct UserCertificateItem {
    pub certificate: UserCertificate,
    pub error: Option<String>,
    /// The description as edited.
    pub request_update: String,
    pub get_result_update: bool,
    pub get_result_delete: bool,
    pub show_cert: bool,
}

/// The transition of a certificate: from `s`, message `m` leads to `t` and
/// asks for `acts`.
pub open spec fn item_next(s: UserCertificateItem, m: ItemMsg, t: UserCertificateItem, acts: Seq<ItemAction>) -> bool {
    match m {
        ItemMsg::RequestUpdateDescription(file_uuid, description) => t == s
            && acts == seq![ItemAction::Query(ItemRequest::UpdateDescription { file_uuid, description })],
        ItemMsg::RequestDeleteCert(file_uuid) => t == s && acts == seq![ItemAction::Query(ItemRequest::Delete { file_uuid })],
        ItemMsg::GetUpdateResult(Ok(b)) => t == (UserCertificateItem { get_result_update: b, ..s })
            && acts == Seq::<ItemAction>::empty(),
        ItemMsg::GetDeleteCertResult(Ok(b)) => t == (UserCertificateItem { get_result_delete: b, ..s })
            && acts == (if b {
                seq![ItemAction::Query(ItemRequest::Deleted(s.certificate.file.uuid))]
            } else {
                Seq::<ItemAction>::empty()
            }),
        ItemMsg::GetUpdateResult(Err(e)) | ItemMsg::GetDeleteCertResult(Err(e)) =>
            t == s && acts == seq![ItemAction::Send(ItemMsg::ResponseError(e))],
        ItemMsg::UpdateDescription(d) => t == (UserCertificateItem { request_update: d, ..s })
            && acts == Seq::<ItemAction>::empty(),
        ItemMsg::ShowCert => t == (UserCertificateItem { show_cert: !s.show_cert, ..s }) && acts == Seq::<ItemAction>::empty(),
        ItemMsg::ResponseError(e) => t == (UserCertificateItem { error: Some(e), ..s }) && acts == Seq::<ItemAction>::empty(),
        ItemMsg::ClearError => t == (UserCertificateItem { error: None, ..s }) && acts == Seq::<ItemAction>::empty(),
        ItemMsg::Ignore => t == s && acts == Seq::<ItemAction>::empty(),
    }
}

/// Request law: saving a description asks for exactly the update of the
/// given file with the given text, deleting asks for exactly the deletion of
/// the given file, and no other message asks the server to delete.
pub proof fn lemma_item_requests(s: UserCertificateItem, m: ItemMsg, t: UserCertificateItem, acts: Seq<ItemAction>, i: int)
    requires
        item_next(s, m, t, acts),
        0 <= i < acts.len(),
    ensures
        m matches ItemMsg::RequestUpdateDescription(u, d) ==> acts
            == seq![ItemAction::Query(ItemRequest::UpdateDescription { file_uuid: u, description: d })],
        m matches ItemMsg::RequestDeleteCert(u) ==> acts == seq![ItemAction::Query(ItemRequest::Delete { file_uuid: u })],
        acts[i] matches ItemAction::Query(ItemRequest::Delete { file_uuid }) ==> m == ItemMsg::RequestDeleteCert(file_uuid),
        acts[i] matches ItemAction::Query(ItemRequest::UpdateDescription { file_uuid, description })
            ==> m == ItemMsg::RequestUpdateDescription(file_uuid, description),
{
}

/// Deletion law: the list hears of a deletion only when the server
/// confirmed it, and then of this certificate's file.
pub proof fn lemma_deletion_reported_when_confirmed(
    s: UserCertificateItem,
    r: Result<bool, String>,
    t: UserCertificateItem,
    acts: Seq<ItemAction>,
)
    requires
        item_next(s, ItemMsg::GetDeleteCertResult(r), t, acts),
    ensures
        (exists|i: int| 0 <= i < acts.len() && (#[trigger] acts[i] matches ItemAction::Query(ItemRequest::Deleted(_))))
            <==> r == Result::<bool, String>::Ok(true),
        r == Result::<bool, String>::Ok(true) ==> acts == seq![ItemAction::Query(ItemRequest::Deleted(s.certificate.file.uuid))],
{
    if r == Result::<bool, String>::Ok(true) {
        assert(acts[0] matches ItemAction::Query(ItemRequest::Deleted(_)));
    }
}

impl UserCertificateItem {
    /// A certificate as first shown: the edited description is its own.
    pub fn new(certificate: UserCertificate) -> (s: Self)
        ensures
            s.certificate == certificate,
            s.error.is_none(),
            s.request_update == certificate.description,
            !s.get_result_update,
            !s.get_result_delete,
            !s.show_cert,
    {
        let request_update = certificate.description.clone();
        UserCertificateItem {
            certificate,
            error: None,
            request_update,
            get_result_update: false,
            get_result_delete: false,
            show_cert: false,
        }
    }

    /// Takes the certificate given; it is drawn again only for another file.
    pub fn change(&mut self, certificate: UserCertificate) -> (redraw: bool)
        ensures
            redraw == (certificate.file.uuid@ != old(self).certificate.file.uuid@),
            redraw ==> *final(self) == (UserCertificateItem { certificate, ..*old(self) }),
            !redraw ==> *final(self) == *old(self),
    {
        if same_text(self.certificate.file.uuid.as_str(), certificate.file.uuid.as_str()) {
            false
        } else {
            self.certificate = certificate;
            true
        }
    }

    /// Handles one message; see `item_next`. It is drawn again after each.
    pub fn update(&mut self, msg: ItemMsg) -> (acts: Vec<ItemAction>)
        ensures
            item_next(*old(self), msg, *final(self), acts@),
    {
        let mut acts: Vec<ItemAction> = Vec::new();
        match msg {
            ItemMsg::RequestUpdateDescription(file_uuid, description) => {
                acts.push(ItemAction::Query(ItemRequest::UpdateDescription { file_uuid, description }));
            },
            ItemMsg::RequestDeleteCert(file_uuid) => {
                acts.push(ItemAction::Query(ItemRequest::Delete { file_uuid }));
            },
            ItemMsg::GetUpdateResult(res) => match res {
                Ok(b) => {
                    self.get_result_update = b;
                },
                Err(e) => {
                    acts.push(ItemAction::Send(ItemMsg::ResponseError(e)));
                },
            },
            ItemMsg::GetDeleteCertResult(res) => match res {
                Ok(b) => {
                    self.get_result_delete = b;
                    if b {
                        acts.push(ItemAction::Query(ItemRequest::Deleted(self.certificate.file.uuid.clone())));
                    }
                },
                Err(e) => {
                    acts.push(ItemAction::Send(ItemMsg::ResponseError(e)));
                },
            },
            ItemMsg::UpdateDescription(d) => {
                self.request_update = d;
            },
            ItemMsg::ShowCert => {
                self.show_cert = !self.show_cert;
            },
            ItemMsg::ResponseError(e) => {
                self.error = Some(e);
            },
            ItemMsg::ClearError => {
                self.error = None;
            },
            ItemMsg::Ignore => {},
        }
        acts
    }
}

// ---------------------------------------------------------------------
// Uploading a new certificate.

/// The data of a certificate to upload: the file's name and a description.
pub struct NewUserCertData {
    pub filename: String,
    pub description: String,
}

impl NewUserCertData {
    /// Empty data.
    pub fn new() -> (d: Self)
        ensures
            d.filename@.len() == 0 && d.description@.len() == 0,
    {
        NewUserCertData { filename: String::new(), description: String::new() }
    }
}

/// What the upload card reacts to; the chosen files arrive by name, replies
/// decoded, `Err` holding the message of a failed reply or upload.
pub enum UploadMsg {
    RequestUploadData,
    /// The files chosen or dropped, by name, if the browser gave a list.
    UpdateFiles(Option<Vec<String>>),
    GetUploadData(Result<UploadTicket, String>),
    /// The number of files stored, or why storing failed.
    GetUploadCompleted(Result<usize, String>),
    UpdateDescription(String),
    HideNotification,
    ClearFileBoxed,
    ClearError,
    Ignore,
}

/// A request to the server or to the browser.
pub enum UploadRequest {
    /// Register the certificate; the reply says where to put the file.
    Register(NewUserCertData),
    /// Put the chosen file where the ticket says.
    Store(UploadTicket),
}

/// What a transition of the upload card asks for.
pub enum UploadAction {
    Query(UploadRequest),
    Send(UploadMsg),
}

/// The state of the upload card; the chosen file is known by its name.
pub struct AddUserCertificateCard {
    pub user_uuid: String,
    pub error: Option<String>,
    pub get_result_up_completed: bool,
    pub file: Option<String>,
    pub description: String,
    pub active_loading_files_btn: bool,
    pub dis_upload_btn: bool,
}

/// The transition of the upload card: from `s`, message `m` leads to `t`
/// and asks for `acts`.
pub open spec fn upload_next(s: AddUserCertificateCard, m: UploadMsg, t: AddUserCertificateCard, acts: Seq<UploadAction>) -> bool {
    let none = Seq::<UploadAction>::empty();
    match m {
        UploadMsg::RequestUploadData => t == (AddUserCertificateCard { active_loading_files_btn: true, ..s })
            && acts == (match s.file {
                Some(name) => seq![UploadAction::Query(UploadRequest::Register(
                    NewUserCertData { filename: name, description: s.description },
                ))],
                None => none,
            }),
        UploadMsg::UpdateFiles(None) => t == s && acts == none,
        UploadMsg::UpdateFiles(Some(names)) => {
            let file = if names@.len() > 0 { Some(names@[0]) } else { None };
            t == (AddUserCertificateCard { file, dis_upload_btn: file.is_none(), ..s }) && acts == none
        },
        UploadMsg::GetUploadData(Ok(ticket)) => t == s && acts == (if s.file.is_some() {
            seq![UploadAction::Query(UploadRequest::Store(ticket))]
        } else {
            none
        }),
        UploadMsg::GetUploadData(Err(e)) => t == (AddUserCertificateCard { error: Some(e), ..s }) && acts == none,
        UploadMsg::GetUploadCompleted(Ok(n)) => t == (AddUserCertificateCard {
                get_result_up_completed: n == 1,
                active_loading_files_btn: false,
                ..s
            }) && acts == none,
        UploadMsg::GetUploadCompleted(Err(e)) => t == (AddUserCertificateCard {
                error: Some(e),
                active_loading_files_btn: false,
                ..s
            }) && acts == none,
        UploadMsg::UpdateDescription(d) => t == (AddUserCertificateCard { description: d, ..s }) && acts == none,
        UploadMsg::HideNotification => t == (AddUserCertificateCard { get_result_up_completed: !s.get_result_up_completed, ..s })
            && acts == seq![UploadAction::Send(UploadMsg::ClearFileBoxed)],
        UploadMsg::ClearFileBoxed => t.description@.len() == 0
            && t == (AddUserCertificateCard { file: None, description: t.description, dis_upload_btn: true, ..s })
            && acts == none,
        UploadMsg::ClearError => t == (AddUserCertificateCard { error: None, ..s }) && acts == none,
        UploadMsg::Ignore => t == s && acts == none,
    }
}

/// Upload law: the upload button is enabled exactly while a file is chosen.
pub open spec fn button_matches_file(s: AddUserCertificateCard) -> bool {
    s.dis_upload_btn == s.file.is_none()
}

/// Upload law: every transition keeps `button_matches_file`, and a
/// certificate is registered only with a chosen file, under its name.
pub proof fn lemma_upload_needs_file(s: AddUserCertificateCard, m: UploadMsg, t: AddUserCertificateCard, acts: Seq<UploadAction>)
    requires
        button_matches_file(s),
        upload_next(s, m, t, acts),
    ensures
        button_matches_file(t),
        m is RequestUploadData ==> (acts.len() > 0 <==> s.file.is_some()),
{
}

impl AddUserCertificateCard {
    /// The card as first shown for the user `user_uuid`: nothing chosen.
    pub fn new(user_uuid: String) -> (s: Self)
        ensures
            s.user_uuid == user_uuid,
            s.error.is_none(),
            !s.get_result_up_completed,
            s.file.is_none(),
            s.description@.len() == 0,
            !s.active_loading_files_btn,
            s.dis_upload_btn,
            button_matches_file(s),
    {
        AddUserCertificateCard {
            user_uuid,
            error: None,
            get_result_up_completed: false,
            file: None,
            description: String::new(),
            active_loading_files_btn: false,
            dis_upload_btn: true,
        }
    }

    /// Handles one message; see `upload_next`. It is drawn again after each.
    #[verifier::rlimit(30)]
    pub fn update(&mut self, msg: UploadMsg) -> (acts: Vec<UploadAction>)
        ensures
            upload_next(*old(self), msg, *final(self), acts@),
    {
        let mut acts: Vec<UploadAction> = Vec::new();
        match msg {
            UploadMsg::RequestUploadData => {
                self.active_loading_files_btn = true;
                match &self.file {
                    Some(name) => {
                        acts.push(UploadAction::Query(UploadRequest::Register(NewUserCertData {
                            filename: name.clone(),
                            description: self.description.clone(),
                        })));
                    },
                    None => {},
                }
            },
            UploadMsg::UpdateFiles(list) => match list {
                Some(names) => {
                    if names.len() > 0 {
                        self.file = Some(names[0].clone());
                    } else {
                        self.file = None;
                    }
                    self.dis_upload_btn = self.file.is_none();
                },
                None => {},
            },
            UploadMsg::GetUploadData(res) => match res {
                Ok(ticket) => {
                    if self.file.is_some() {
                        acts.push(UploadAction::Query(UploadRequest::Store(ticket)));
                    }
                },
                Err(e) => {
                    self.error = Some(e);
                },
            },
            UploadMsg::GetUploadCompleted(res) => {
                match res {
                    Ok(n) => {
                        self.get_result_up_completed = n == 1;
                    },
                    Err(e) => {
                        self.error = Some(e);
                    },
                }
                self.active_loading_files_btn = false;
            },
            UploadMsg::UpdateDescription(d) => {
                self.description = d;
            },
            UploadMsg::HideNotification => {
                acts.push(UploadAction::Send(UploadMsg::ClearFileBoxed));
                self.get_result_up_completed = !self.get_result_up_completed;
            },
            UploadMsg::ClearFileBoxed => {
                self.file = None;
                self.description = String::new();
                self.dis_upload_btn = true;
            },
            UploadMsg::ClearError => {
                self.error = None;
            },
            UploadMsg::Ignore => {},
        }
        acts
    }
}

} // verus!
