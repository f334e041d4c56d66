//! The block that uploads the favicon of the signed-in user or of a company.

use vstd::prelude::*;
use crate::common::UploadTicket;

verus! {

/// A request to the server or to the page that holds the block.
pub enum FaviconRequest {
    /// Register the user's favicon under this file name.
    UploadUser { filename: String },
    /// Register the company's favicon under this file name.
    UploadCompany { company_uuid: String, filename: String },
    /// Tell the page that the favicon was stored.
    Uploaded,
}

/// What the block reacts to; replies arrive decoded, `Err` holding the
/// message of a failed reply.
pub enum Msg {
    RequestUploadData(Vec<String>),
    RequestUploadUserData(String),
    RequestUploadCompanyData(String),
    ResponseError(String),
    GetUploadData(Result<Option<UploadTicket>, String>),
    UploadConfirm(usize),
    ClearError,
}

/// What a transition asks for.
pub enum Action {
    Query(FaviconRequest),
    Send(Msg),
}

/// The state of the block.
pub struct UpdateFaviconBlock {
    /// The company whose favicon is uploaded; `None` for the user's own.
    pub company_uuid: Option<String>,
    pub error: Option<String>,
    pub request_upload_data: Option<UploadTicket>,
    pub get_result_up_completed: bool,
}

/// No action.
pub open spec fn none() -> Seq<Action> {
    Seq::<Action>::empty()
}

/// The field of the server's reply that holds the ticket.
pub open spec fn reply_key_of(s: UpdateFaviconBlock) -> Seq<char> {
    if s.company_uuid.is_some() { "uploadCompanyFavicon"@ } else { "uploadFavicon"@ }
}

/// The messages that the block cannot take in state `s` (it would fail):
/// a company's upload without a company.
pub open spec fn accepts(s: UpdateFaviconBlock, m: Msg) -> bool {
    m is RequestUploadCompanyData ==> s.company_uuid.is_some()
}

/// The transition of the block: from `s`, message `m` leads to `t` and asks
/// for `acts`.
pub open spec fn next(s: UpdateFaviconBlock, m: Msg, t: UpdateFaviconBlock, acts: Seq<Action>) -> bool {
    match m {
        Msg::RequestUploadData(names) => t == s && acts == (if names@.len() == 0 {
            none()
        } else if s.company_uuid.is_some() {
            seq![Action::Send(Msg::RequestUploadCompanyData(names@[0]))]
        } else {
            seq![Action::Send(Msg::RequestUploadUserData(names@[0]))]
        }),
        Msg::RequestUploadUserData(filename) => t == s
            && acts == seq![Action::Query(FaviconRequest::UploadUser { filename })],
        Msg::RequestUploadCompanyData(filename) => t == s
            && acts == seq![Action::Query(FaviconRequest::UploadCompany { company_uuid: s.company_uuid.unwrap(), filename })],
        Msg::ResponseError(e) => t == (UpdateFaviconBlock { error: Some(e), ..s }) && acts == none(),
        Msg::GetUploadData(Ok(ticket)) => t == (UpdateFaviconBlock { request_upload_data: ticket, ..s }) && acts == none(),
        Msg::GetUploadData(Err(e)) => t == s && acts == seq![Action::Send(Msg::ResponseError(e))],
        Msg::UploadConfirm(n) => t == (UpdateFaviconBlock { get_result_up_completed: n > 0, ..s })
            && acts == seq![Action::Query(FaviconRequest::Uploaded)],
        Msg::ClearError => t == (UpdateFaviconBlock { error: None, ..s }) && acts == none(),
    }
}

/// Request law: a favicon upload for the user carries the chosen file, one
/// for the company carries the block's company and the chosen file, and no
/// other message asks for either.
pub proof fn lemma_upload_requests(s: UpdateFaviconBlock, m: Msg, t: UpdateFaviconBlock, acts: Seq<Action>, i: int)
    requires
        next(s, m, t, acts),
        0 <= i < acts.len(),
    ensures
        m matches Msg::RequestUploadUserData(f) ==> acts == seq![Action::Query(FaviconRequest::UploadUser { filename: f })],
        m matches Msg::RequestUploadCompanyData(f) ==> acts
            == seq![Action::Query(FaviconRequest::UploadCompany { company_uuid: s.company_uuid.unwrap(), filename: f })],
        acts[i] matches Action::Query(FaviconRequest::UploadUser { filename }) ==> m == Msg::RequestUploadUserData(filename),
        acts[i] matches Action::Query(FaviconRequest::UploadCompany { filename, .. }) ==> m == Msg::RequestUploadCompanyData(filename),
{
}

/// Owner law: a chosen file is registered as the company's favicon exactly
/// when the block belongs to a company, and only the first file chosen is.
pub proof fn lemma_upload_goes_to_owner(s: UpdateFaviconBlock, names: Vec<String>, t: UpdateFaviconBlock, acts: Seq<Action>)
    requires
        names@.len() > 0,
        next(s, Msg::RequestUploadData(names), t, acts),
    ensures
        acts.len() == 1,
        s.company_uuid.is_some() ==> acts[0] == Action::Send(Msg::RequestUploadCompanyData(names@[0])),
        s.company_uuid.is_none() ==> acts[0] == Action::Send(Msg::RequestUploadUserData(names@[0])),
{
}

impl UpdateFaviconBlock {
    /// The block as first shown, for `company_uuid` or the user.
    pub fn new(company_uuid: Option<String>) -> (s: Self)
        ensures
            s.company_uuid == company_uuid,
            s.error.is_none(),
            s.request_upload_data.is_none(),
            !s.get_result_up_completed,
    {
        UpdateFaviconBlock { company_uuid, error: None, request_upload_data: None, get_result_up_completed: false }
    }

    /// The field of the server's reply that holds the ticket; see
    /// `reply_key_of`.
    pub fn reply_key(&self) -> (k: &'static str)
        ensures
            k@ == reply_key_of(*self),
    {
        if self.company_uuid.is_some() {
            "uploadCompanyFavicon"
        } else {
            "uploadFavicon"
        }
    }

    /// Handles one message; see `next`. The block is drawn again after each.
    pub fn update(&mut self, msg: Msg) -> (acts: Vec<Action>)
        requires
            accepts(*old(self), msg),
        ensures
            next(*old(self), msg, *final(self), acts@),
    {
        let mut acts: Vec<Action> = Vec::new();
        match msg {
            Msg::RequestUploadData(names) => {
                if names.len() > 0 {
                    let filename = names[0].clone();
                    if self.company_uuid.is_some() {
                        acts.push(Action::Send(Msg::RequestUploadCompanyData(filename)));
                    } else {
                        acts.push(Action::Send(Msg::RequestUploadUserData(filename)));
                    }
                }
            },
            Msg::RequestUploadUserData(filename) => {
                acts.push(Action::Query(FaviconRequest::UploadUser { filename }));
            },
            Msg::RequestUploadCompanyData(filename) => {
                let company_uuid = match &self.company_uuid {
                    Some(u) => u.clone(),
                    None => String::new(),
                };
                acts.push(Action::Query(FaviconRequest::UploadCompany { company_uuid, filename }));
            },
            Msg::ResponseError(e) => {
                self.error = Some(e);
            },
            Msg::GetUploadData(res) => match res {
                Ok(ticket) => {
                    self.request_upload_data = ticket;
                },
                Err(e) => {
                    acts.push(Action::Send(Msg::ResponseError(e)));
                },
            },
            Msg::UploadConfirm(n) => {
                self.get_result_up_completed = n > 0;
                acts.push(Action::Query(FaviconRequest::Uploaded));
            },
            Msg::ClearError => {
                self.error = None;
            },
        }
        acts
    }
}

} // verus!
