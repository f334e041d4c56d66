//! The 3D viewer of a fileset: it loads the fileset's files, picks those
//! it can show and, for a glTF model, the resources that the model needs.

use vstd::prelude::*;
use crate::common::{DownloadFile, byte_len};
use crate::route::same_text;

verus! {

/// A 3D format that the viewer can show. `Other` carries the viewer's own
/// number for a format that needs no resource files.
#[derive(PartialEq, Eq, Structural, Clone, Copy)]
pub enum ModelFormat {
    Gltf,
    Other(usize),
}

/// A file of the fileset, with what the viewer's services read from its
/// name: the 3D format it is in, if any, and whether a glTF model may
/// load it as a resource (a buffer or a texture).
pub struct ShowcaseFile {
    pub file: DownloadFile,
    pub format: Option<ModelFormat>,
    pub gltf_resource: bool,
}

/// The files that can be shown, with their formats, in the order listed.
pub open spec fn suitable_of(files: Seq<ShowcaseFile>) -> Seq<(DownloadFile, ModelFormat)>
    decreases files.len(),
{
    if files.len() == 0 {
        Seq::empty()
    } else {
        let rest = suitable_of(files.drop_last());
        match files.last().format {
            Some(f) => rest.push((files.last().file, f)),
            None => rest,
        }
    }
}

/// The name of a file up to its first `'.'` (the whole name where it has
/// none).
pub open spec fn base_name(name: Seq<char>) -> Seq<char>
    decreases name.len(),
{
    if name.len() == 0 || name[0] == '.' {
        Seq::empty()
    } else {
        seq![name[0]] + base_name(name.drop_first())
    }
}

/// The resources of a glTF model whose file has the base name `base`: the
/// files that a glTF model may load, but for one named exactly `base`.
pub open spec fn resources_of(files: Seq<ShowcaseFile>, base: Seq<char>) -> Seq<DownloadFile>
    decreases files.len(),
{
    if files.len() == 0 {
        Seq::empty()
    } else {
        let rest = resources_of(files.drop_last(), base);
        let f = files.last();
        if f.file.filename@ != base && f.gltf_resource {
            rest.push(f.file)
        } else {
            rest
        }
    }
}

/// The name and address of each resource, as the viewer is handed them.
pub open spec fn mapping_of(files: Seq<DownloadFile>) -> Seq<(String, String)> {
    files.map_values(|f: DownloadFile| (f.filename, f.download_url))
}

/// A request to the server or to the viewer.
pub enum ShowcaseRequest {
    /// One page of the files of the fileset.
    FilesetFiles { fileset_uuid: String, current_page: usize, per_page: usize },
    /// Show the model, with its resources by name and address.
    Preview { file: DownloadFile, format: ModelFormat, resources: Vec<(String, String)>, full_screen: bool },
}

/// What the viewer reacts to; replies arrive decoded, `Err` holding the
/// message of a failed reply.
pub enum Msg {
    RequestDownloadFilesetFiles,
    ResponseError(String),
    GetDownloadFilesetFilesResult(Result<Vec<ShowcaseFile>, String>),
    ChangeTypeShow,
    ShowThree,
    ClearError,
}

/// What a transition asks for.
pub enum Action {
    Query(ShowcaseRequest),
    Send(Msg),
}

/// The state of the viewer.
pub struct ThreeShowcase {
    pub fileset_uuid: String,
    pub error: Option<String>,
    pub current_page: usize,
    pub per_page: usize,
    pub full_screen: bool,
    pub file_arr: Vec<ShowcaseFile>,
    pub selected_file: Option<(DownloadFile, ModelFormat)>,
    pub suitable_files: Vec<(DownloadFile, ModelFormat)>,
    pub resource_files: Vec<DownloadFile>,
}

/// No action.
pub open spec fn none() -> Seq<Action> {
    Seq::<Action>::empty()
}

/// The transition of the viewer: from `s`, message `m` leads to `t` and
/// asks for `acts`.
pub open spec fn next(s: ThreeShowcase, m: Msg, t: ThreeShowcase, acts: Seq<Action>) -> bool {
    match m {
        Msg::RequestDownloadFilesetFiles => t == s && acts == (if byte_len(s.fileset_uuid@) == 36 {
            seq![Action::Query(ShowcaseRequest::FilesetFiles {
                fileset_uuid: s.fileset_uuid,
                current_page: s.current_page,
                per_page: s.per_page,
            })]
        } else {
            none()
        }),
        Msg::ResponseError(e) => t == (ThreeShowcase { error: Some(e), ..s }) && acts == none(),
        Msg::GetDownloadFilesetFilesResult(Ok(files)) => {
            let suitable = suitable_of(files@);
            &&& t.suitable_files@ == suitable
            &&& if suitable.len() > 0 {
                let (file, format) = suitable[0];
                &&& t.resource_files@ == (if format == ModelFormat::Gltf {
                    resources_of(files@, base_name(file.filename@))
                } else {
                    Seq::empty()
                })
                &&& t == (ThreeShowcase {
                    file_arr: files,
                    selected_file: Some(suitable[0]),
                    suitable_files: t.suitable_files,
                    resource_files: t.resource_files,
                    ..s
                })
                &&& acts == seq![Action::Send(Msg::ShowThree)]
            } else {
                &&& t.resource_files@.len() == 0
                &&& t == (ThreeShowcase {
                    file_arr: files,
                    suitable_files: t.suitable_files,
                    resource_files: t.resource_files,
                    ..s
                })
                &&& acts == none()
            }
        },
        Msg::GetDownloadFilesetFilesResult(Err(e)) => t == s && acts == seq![Action::Send(Msg::ResponseError(e))],
        Msg::ChangeTypeShow => t == (ThreeShowcase { full_screen: !s.full_screen, ..s })
            && acts == seq![Action::Send(Msg::ShowThree)],
        Msg::ShowThree => t == s && match s.selected_file {
            Some((file, format)) => acts.len() == 1
                && (acts[0] matches Action::Query(ShowcaseRequest::Preview { file: f, format: g, resources, full_screen })
                && f == file && g == format && resources@ == mapping_of(s.resource_files@)
                && full_screen == s.full_screen),
            None => acts == none(),
        },
        Msg::ClearError => t == (ThreeShowcase { error: None, ..s }) && acts == none(),
    }
}

/// Resource law: the resources of a model are files that a glTF model may
/// load, none of them named as the model's base name, each one of the
/// fileset's files, and in the fileset's order.
pub proof fn lemma_resources_are_loadable_files(files: Seq<ShowcaseFile>, base: Seq<char>, i: int)
    requires
        0 <= i < resources_of(files, base).len(),
    ensures
        resources_of(files, base)[i].filename@ != base,
        exists|j: int| 0 <= j < files.len() && files[j].gltf_resource && files[j].file == #[trigger] resources_of(files, base)[i],
    decreases files.len(),
{
    let rest = resources_of(files.drop_last(), base);
    if i < rest.len() {
        lemma_resources_are_loadable_files(files.drop_last(), base, i);
        let j = choose|j: int| 0 <= j < files.drop_last().len() && files.drop_last()[j].gltf_resource
            && files.drop_last()[j].file == #[trigger] resources_of(files.drop_last(), base)[i];
        assert(files[j] == files.drop_last()[j]);
    } else {
        assert(files[files.len() - 1] == files.last());
    }
}

/// Choice law: every file offered for showing is in a 3D format, and the
/// viewer shows the first one listed.
pub proof fn lemma_suitable_are_models(files: Seq<ShowcaseFile>, i: int)
    requires
        0 <= i < suitable_of(files).len(),
    ensures
        exists|j: int| 0 <= j < files.len() && files[j].format == Some(#[trigger] suitable_of(files)[i].1)
            && files[j].file == suitable_of(files)[i].0,
    decreases files.len(),
{
    let rest = suitable_of(files.drop_last());
    if i < rest.len() {
        lemma_suitable_are_models(files.drop_last(), i);
        let j = choose|j: int| 0 <= j < files.drop_last().len()
            && files.drop_last()[j].format == Some(#[trigger] suitable_of(files.drop_last())[i].1)
            && files.drop_last()[j].file == suitable_of(files.drop_last())[i].0;
        assert(files[j] == files.drop_last()[j]);
    } else {
        assert(files[files.len() - 1] == files.last());
    }
}

/// Address law: the viewer is handed each resource by its file name and
/// its download address, in the order of the resources.
pub proof fn lemma_resources_by_download_address(files: Seq<DownloadFile>, i: int)
    requires
        0 <= i < files.len(),
    ensures
        mapping_of(files).len() == files.len(),
        mapping_of(files)[i].0 == files[i].filename,
        mapping_of(files)[i].1 == files[i].download_url,
{
}

/// Preview law: showing the model hands the viewer the selected file in its
/// format, every resource by its name and download address, and the
/// screen mode; nothing is shown while no model is selected.
pub proof fn lemma_preview_hands_over_resources(s: ThreeShowcase, t: ThreeShowcase, acts: Seq<Action>, i: int)
    requires
        next(s, Msg::ShowThree, t, acts),
    ensures
        s.selected_file.is_none() ==> acts.len() == 0,
        s.selected_file matches Some((file, format)) ==> {
            &&& acts.len() == 1
            &&& acts[0] matches Action::Query(ShowcaseRequest::Preview { file: f, format: g, resources, full_screen })
            &&& f == file && g == format && full_screen == s.full_screen
            &&& resources@.len() == s.resource_files@.len()
            &&& (0 <= i < resources@.len() ==> resources@[i].0 == s.resource_files@[i].filename
                && resources@[i].1 == s.resource_files@[i].download_url)
        },
{
}

/// The part of a file name before its first `'.'`; see `base_name`.
pub fn file_base_name(name: &str) -> (b: String)
    ensures
        b@ == base_name(name@),
{
    let n = name.unicode_len();
    let mut i: usize = 0;
    while i < n
        invariant
            n == name@.len(),
            i <= n,
            forall|k: int| 0 <= k < i ==> name@[k] != '.',
        ensures
            i <= n,
            forall|k: int| 0 <= k < i ==> name@[k] != '.',
            i == n || name@[i as int] == '.',
        decreases n - i,
    {
        if name.get_char(i) == '.' {
            break;
        }
        i = i + 1;
    }
    proof {
        lemma_base_name_prefix(name@, i as int);
    }
    name.substring_char(0, i).to_owned()
}

/// `base_name` is the prefix up to the first `'.'`.
proof fn lemma_base_name_prefix(s: Seq<char>, i: int)
    requires
        0 <= i <= s.len(),
        forall|k: int| 0 <= k < i ==> s[k] != '.',
        i == s.len() || s[i] == '.',
    ensures
        base_name(s) == s.subrange(0, i),
    decreases s.len(),
{
    if i == 0 {
        assert(s.subrange(0, 0) =~= Seq::<char>::empty());
    } else {
        let t = s.drop_first();
        assert forall|k: int| 0 <= k < i - 1 implies t[k] != '.' by {
            assert(t[k] == s[k + 1]);
        }
        if i < s.len() {
            assert(t[i - 1] == s[i]);
        }
        lemma_base_name_prefix(t, i - 1);
        assert(s.subrange(0, i) =~= seq![s[0]] + t.subrange(0, i - 1));
    }
}

/// The files that can be shown; see `suitable_of`.
fn collect_suitable(files: &Vec<ShowcaseFile>) -> (r: Vec<(DownloadFile, ModelFormat)>)
    ensures
        r@ == suitable_of(files@),
{
    let mut r: Vec<(DownloadFile, ModelFormat)> = Vec::new();
    let n = files.len();
    let mut i: usize = 0;
    assert(files@.subrange(0, 0) =~= Seq::<ShowcaseFile>::empty());
    while i < n
        invariant
            n == files@.len(),
            i <= n,
            r@ == suitable_of(files@.subrange(0, i as int)),
        decreases n - i,
    {
        assert(files@.subrange(0, i + 1).drop_last() =~= files@.subrange(0, i as int));
        match files[i].format {
            Some(f) => {
                r.push((files[i].file.duplicate(), f));
            },
            None => {},
        }
        i = i + 1;
    }
    assert(files@.subrange(0, n as int) =~= files@);
    r
}

/// The resources of a glTF model; see `resources_of`.
fn collect_resources(files: &Vec<ShowcaseFile>, base: &str) -> (r: Vec<DownloadFile>)
    ensures
        r@ == resources_of(files@, base@),
{
    let mut r: Vec<DownloadFile> = Vec::new();
    let n = files.len();
    let mut i: usize = 0;
    assert(files@.subrange(0, 0) =~= Seq::<ShowcaseFile>::empty());
    while i < n
        invariant
            n == files@.len(),
            i <= n,
            r@ == resources_of(files@.subrange(0, i as int), base@),
        decreases n - i,
    {
        assert(files@.subrange(0, i + 1).drop_last() =~= files@.subrange(0, i as int));
        let f = &files[i];
        if !same_text(f.file.filename.as_str(), base) && f.gltf_resource {
            r.push(f.file.duplicate());
        }
        i = i + 1;
    }
    assert(files@.subrange(0, n as int) =~= files@);
    r
}

/// The name and address of each resource; see `mapping_of`.
fn resource_mapping(files: &Vec<DownloadFile>) -> (r: Vec<(String, String)>)
    ensures
        r@ == mapping_of(files@),
{
    let mut r: Vec<(String, String)> = Vec::new();
    let n = files.len();
    let mut i: usize = 0;
    while i < n
        invariant
            n == files@.len(),
            i <= n,
            r@ == mapping_of(files@.subrange(0, i as int)),
        decreases n - i,
    {
        r.push((files[i].filename.clone(), files[i].download_url.clone()));
        assert(mapping_of(files@.subrange(0, i + 1)) =~= mapping_of(files@.subrange(0, i as int)).push(
            (files@[i as int].filename, files@[i as int].download_url),
        ));
        i = i + 1;
    }
    assert(files@.subrange(0, n as int) =~= files@);
    r
}

impl ThreeShowcase {
    /// The viewer as first created for the fileset `fileset_uuid`: first
    /// page, fifty files a page.
    pub fn new(fileset_uuid: String) -> (s: Self)
        ensures
            s.fileset_uuid == fileset_uuid,
            s.error.is_none(),
            s.current_page == 1 && s.per_page == 50,
            !s.full_screen,
            s.file_arr@.len() == 0,
            s.selected_file.is_none(),
            s.suitable_files@.len() == 0,
            s.resource_files@.len() == 0,
    {
        ThreeShowcase {
            fileset_uuid,
            error: None,
            current_page: 1,
            per_page: 50,
            full_screen: false,
            file_arr: Vec::new(),
            selected_file: None,
            suitable_files: Vec::new(),
            resource_files: Vec::new(),
        }
    }

    /// What showing the viewer asks for: its files, on the first showing.
    pub fn on_render(&self, first_render: bool) -> (acts: Vec<Action>)
        ensures
            acts@ == (if first_render { seq![Action::Send(Msg::RequestDownloadFilesetFiles)] } else { none() }),
    {
        let mut acts: Vec<Action> = Vec::new();
        if first_render {
            acts.push(Action::Send(Msg::RequestDownloadFilesetFiles));
        }
        acts
    }

    /// Takes the fileset given to the viewer. Another fileset drops what was
    /// loaded, leaves full screen and asks for the new files; the flag is
    /// whether the viewer is drawn again.
    pub fn change(&mut self, fileset_uuid: String) -> (r: (bool, Vec<Action>))
        ensures
            fileset_uuid@ == old(self).fileset_uuid@ ==> *final(self) == *old(self) && !r.0 && r.1@.len() == 0,
            fileset_uuid@ != old(self).fileset_uuid@ ==> {
                &&& r.0
                &&& r.1@ == seq![Action::Send(Msg::RequestDownloadFilesetFiles)]
                &&& final(self).file_arr@.len() == 0
                &&& final(self).suitable_files@.len() == 0
                &&& final(self).resource_files@.len() == 0
                &&& *final(self) == (ThreeShowcase {
                    fileset_uuid: fileset_uuid,
                    full_screen: false,
                    selected_file: None,
                    file_arr: final(self).file_arr,
                    suitable_files: final(self).suitable_files,
                    resource_files: final(self).resource_files,
                    ..*old(self)
                })
            },
    {
        let mut acts: Vec<Action> = Vec::new();
        if same_text(self.fileset_uuid.as_str(), fileset_uuid.as_str()) {
            return (false, acts);
        }
        self.fileset_uuid = fileset_uuid;
        self.file_arr.clear();
        self.full_screen = false;
        self.selected_file = None;
        self.suitable_files.clear();
        self.resource_files.clear();
        acts.push(Action::Send(Msg::RequestDownloadFilesetFiles));
        (true, acts)
    }

    /// Handles one message; see `next`. The viewer is drawn again after each.
    #[verifier::rlimit(40)]
    pub fn update(&mut self, msg: Msg) -> (acts: Vec<Action>)
        ensures
            next(*old(self), msg, *final(self), acts@),
    {
        let mut acts: Vec<Action> = Vec::new();
        match msg {
            Msg::RequestDownloadFilesetFiles => {
                if self.fileset_uuid.as_str().len() == 36 {
                    acts.push(Action::Query(ShowcaseRequest::FilesetFiles {
                        fileset_uuid: self.fileset_uuid.clone(),
                        current_page: self.current_page,
                        per_page: self.per_page,
                    }));
                }
            },
            Msg::ResponseError(e) => {
                self.error = Some(e);
            },
            Msg::GetDownloadFilesetFilesResult(res) => match res {
                Ok(files) => {
                    let suitable = collect_suitable(&files);
                    self.resource_files.clear();
                    if suitable.len() > 0 {
                        let file = suitable[0].0.duplicate();
                        let format = suitable[0].1;
                        if format == ModelFormat::Gltf {
                            let base = file_base_name(file.filename.as_str());
                            self.resource_files = collect_resources(&files, base.as_str());
                        }
                        self.selected_file = Some((file, format));
                        acts.push(Action::Send(Msg::ShowThree));
                    }
                    self.suitable_files = suitable;
                    self.file_arr = files;
                },
                Err(e) => {
                    acts.push(Action::Send(Msg::ResponseError(e)));
                },
            },
            Msg::ChangeTypeShow => {
                self.full_screen = !self.full_screen;
                acts.push(Action::Send(Msg::ShowThree));
            },
            Msg::ShowThree => {
                match &self.selected_file {
                    Some((file, format)) => {
                        acts.push(Action::Query(ShowcaseRequest::Preview {
                            file: file.duplicate(),
                            format: *format,
                            resources: resource_mapping(&self.resource_files),
                            full_screen: self.full_screen,
                        }));
                    },
                    None => {},
                }
            },
            Msg::ClearError => {
                self.error = None;
            },
        }
        acts
    }
}

} // verus!
