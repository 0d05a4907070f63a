//! The steps that move the Nix archive: fetching it, and moving what was
//! unpacked into its final place.

use crate::action::{framed, Action, ActionDescription, ActionDescriptionView, ActionState};
use vstd::prelude::*;

verus! {

/// Whether `c` may begin the scheme of a source location.
pub open spec fn is_scheme_start(c: char) -> bool {
    ('a' <= c && c <= 'z') || ('A' <= c && c <= 'Z')
}

/// Whether `c` may continue the scheme of a source location.
pub open spec fn is_scheme_char(c: char) -> bool {
    is_scheme_start(c) || ('0' <= c && c <= '9') || c == '+' || c == '-' || c == '.'
}

/// Whether the first `end` characters of `s` form a scheme that ends right
/// before a colon, with something left after the colon.
pub open spec fn scheme_ends_at(s: Seq<char>, end: int) -> bool {
    &&& 0 < end
    &&& end + 1 < s.len()
    &&& s[end] == ':'
    &&& is_scheme_start(s[0])
    &&& forall|j: int| 0 < j < end ==> is_scheme_char(#[trigger] s[j])
}

/// A source location is well formed when it names a scheme (a letter, then
/// letters, digits, `+`, `-` or `.`), a colon, and a non-empty remainder.
pub open spec fn well_formed_url(s: Seq<char>) -> bool {
    exists|end: int| scheme_ends_at(s, end)
}

/// A path is absolute when it starts at the root.
pub open spec fn is_absolute(s: Seq<char>) -> bool {
    s.len() > 0 && s[0] == '/'
}

fn scheme_start(c: char) -> (r: bool)
    ensures
        r == is_scheme_start(c),
{
    ('a' <= c && c <= 'z') || ('A' <= c && c <= 'Z')
}

fn scheme_char(c: char) -> (r: bool)
    ensures
        r == is_scheme_char(c),
{
    scheme_start(c) || ('0' <= c && c <= '9') || c == '+' || c == '-' || c == '.'
}

/// Checks that `url` is a well-formed source location.
pub fn check_url(url: &str) -> (ok: bool)
    ensures
        ok == well_formed_url(url@),
{
    let len = url.unicode_len();
    if len == 0 || !scheme_start(url.get_char(0)) {
        assert(!well_formed_url(url@)) by {
            assert(forall|end: int| !scheme_ends_at(url@, end));
        }
        return false;
    }
    let mut i: usize = 1;
    while i < len
        invariant
            1 <= i <= len,
            len == url@.len(),
            is_scheme_start(url@[0]),
            forall|j: int| 0 < j < i ==> is_scheme_char(#[trigger] url@[j]),
        decreases len - i,
    {
        let c = url.get_char(i);
        if c == ':' {
            let ok = i + 1 < len;
            proof {
                if ok {
                    assert(scheme_ends_at(url@, i as int));
                } else {
                    assert forall|end: int| !scheme_ends_at(url@, end) by {
                        if scheme_ends_at(url@, end) {
                            if end > i {
                                assert(is_scheme_char(url@[i as int]));
                            }
                        }
                    }
                }
            }
            return ok;
        }
        if !scheme_char(c) {
            assert forall|end: int| !scheme_ends_at(url@, end) by {
                if scheme_ends_at(url@, end) {
                    if end > i {
                        assert(is_scheme_char(url@[i as int]));
                    }
                }
            }
            return false;
        }
        i += 1;
    }
    assert forall|end: int| !scheme_ends_at(url@, end) by {
        if scheme_ends_at(url@, end) {
            assert(is_scheme_char(url@[end]));
        }
    }
    false
}

/// Checks that `path` starts at the root.
pub fn check_absolute(path: &str) -> (ok: bool)
    ensures
        ok == is_absolute(path@),
{
    path.unicode_len() > 0 && path.get_char(0) == '/'
}

/// Why fetching the Nix archive could not be planned or did not succeed.
#[derive(Debug)]
pub enum FetchNixError {
    /// The source location is not well formed; carries the location.
    MalformedUrl(String),
    /// The destination is not an absolute path; carries the path.
    RelativeDestination(String),
    /// The host reported a failure; carries its report.
    Host(String),
}

/// The mathematical content of a [`FetchNixError`].
pub enum FetchNixErrorView {
    MalformedUrl(Seq<char>),
    RelativeDestination(Seq<char>),
    Host(Seq<char>),
}

impl View for FetchNixError {
    type V = FetchNixErrorView;

    open spec fn view(&self) -> FetchNixErrorView {
        match self {
            FetchNixError::MalformedUrl(url) => FetchNixErrorView::MalformedUrl(url@),
            FetchNixError::RelativeDestination(path) => FetchNixErrorView::RelativeDestination(
                path@,
            ),
            FetchNixError::Host(report) => FetchNixErrorView::Host(report@),
        }
    }
}

impl FetchNixErrorView {
    /// What a human is told about the error.
    pub open spec fn message(self) -> Seq<char> {
        match self {
            FetchNixErrorView::MalformedUrl(url) => "`"@ + url
                + "` is not a well-formed source location"@,
            FetchNixErrorView::RelativeDestination(path) => "`"@ + path
                + "` is not an absolute path"@,
            FetchNixErrorView::Host(report) => report,
        }
    }
}

impl FetchNixError {
    /// What a human is told about the error.
    pub fn message(&self) -> (text: String)
        ensures
            text@ == self@.message(),
    {
        match self {
            FetchNixError::MalformedUrl(url) => framed(
                "`",
                url,
                "` is not a well-formed source location",
            ),
            FetchNixError::RelativeDestination(path) => framed(
                "`",
                path,
                "` is not an absolute path",
            ),
            FetchNixError::Host(report) => report.clone(),
        }
    }
}

/// Fetches the Nix archive from a source location and unpacks it to a
/// temporary destination.
#[derive(Debug)]
pub struct FetchNix {
    pub url: String,
    pub destination: String,
    pub action_state: ActionState,
}

/// The mathematical content of a [`FetchNix`].
pub struct FetchNixView {
    pub url: Seq<char>,
    pub destination: Seq<char>,
    pub action_state: ActionState,
}

impl FetchNixView {
    pub open spec fn synopsis(self) -> Seq<char> {
        "Fetch Nix from `"@ + self.url + "`"@
    }

    pub open spec fn describes_execute(self) -> Seq<ActionDescriptionView> {
        seq![
            ActionDescriptionView {
                synopsis: self.synopsis(),
                explanation: seq!["Unpack it to `"@ + self.destination + "`"@],
            },
        ]
    }

    pub open spec fn describes_revert(self) -> Seq<ActionDescriptionView> {
        seq![
            ActionDescriptionView {
                synopsis: "Remove the fetched Nix"@,
                explanation: seq!["Remove `"@ + self.destination + "`"@],
            },
        ]
    }
}

impl View for FetchNix {
    type V = FetchNixView;

    open spec fn view(&self) -> FetchNixView {
        FetchNixView {
            url: self.url@,
            destination: self.destination@,
            action_state: self.action_state,
        }
    }
}

impl Clone for FetchNix {
    fn clone(&self) -> (copy: Self)
        ensures
            copy@ == self@,
    {
        FetchNix {
            url: self.url.clone(),
            destination: self.destination.clone(),
            action_state: self.action_state,
        }
    }
}

impl FetchNix {
    /// Plans the fetch of `url` into `destination`. Nothing on the host is
    /// touched. The plan is refused when the source location is not well
    /// formed, and otherwise when the destination is not absolute.
    pub fn plan(url: String, destination: String) -> (planned: Result<Self, FetchNixError>)
        ensures
            match planned {
                Ok(action) => {
                    &&& well_formed_url(url@)
                    &&& is_absolute(destination@)
                    &&& action@ == (FetchNixView {
                        url: url@,
                        destination: destination@,
                        action_state: ActionState::Uncompleted,
                    })
                },
                Err(error) => {
                    if !well_formed_url(url@) {
                        error@ == FetchNixErrorView::MalformedUrl(url@)
                    } else {
                        &&& !is_absolute(destination@)
                        &&& error@ == FetchNixErrorView::RelativeDestination(destination@)
                    }
                },
            },
    {
        if !check_url(url.as_str()) {
            return Err(FetchNixError::MalformedUrl(url));
        }
        if !check_absolute(destination.as_str()) {
            return Err(FetchNixError::RelativeDestination(destination));
        }
        Ok(FetchNix { url, destination, action_state: ActionState::Uncompleted })
    }
}

/// Builds the one-element list that holds a description with one explanatory line.
pub fn single_description(synopsis: String, line: String) -> (descriptions: Vec<
    ActionDescription,
>)
    ensures
        descriptions.deep_view() == seq![
            ActionDescriptionView { synopsis: synopsis@, explanation: seq![line@] },
        ],
{
    let mut explanation: Vec<String> = Vec::new();
    explanation.push(line);
    assert(explanation.deep_view() =~= seq![line@]);
    let description = ActionDescription::new(synopsis, explanation);
    let mut descriptions: Vec<ActionDescription> = Vec::new();
    descriptions.push(description);
    assert(descriptions.deep_view() =~= seq![
        ActionDescriptionView { synopsis: synopsis@, explanation: seq![line@] },
    ]);
    descriptions
}

impl Action for FetchNix {
    open spec fn state(&self) -> ActionState {
        self.action_state
    }

    open spec fn synopsis(&self) -> Seq<char> {
        self@.synopsis()
    }

    open spec fn describes_execute(&self) -> Seq<ActionDescriptionView> {
        self@.describes_execute()
    }

    open spec fn describes_revert(&self) -> Seq<ActionDescriptionView> {
        self@.describes_revert()
    }

    fn tracing_synopsis(&self) -> (synopsis: String) {
        framed("Fetch Nix from `", &self.url, "`")
    }

    fn execute_description(&self) -> (descriptions: Vec<ActionDescription>) {
        single_description(
            self.tracing_synopsis(),
            framed("Unpack it to `", &self.destination, "`"),
        )
    }

    fn revert_description(&self) -> (descriptions: Vec<ActionDescription>) {
        single_description(
            String::from_str("Remove the fetched Nix"),
            framed("Remove `", &self.destination, "`"),
        )
    }

    fn action_state(&self) -> (state: ActionState) {
        self.action_state
    }

    fn set_action_state(&mut self, action_state: ActionState)
        ensures
            final(self)@ == (FetchNixView { action_state, ..old(self)@ }),
    {
        self.action_state = action_state;
    }
}

/// Why creating one directory did not succeed.
#[derive(Debug)]
pub enum CreateDirectoryError {
    /// The host reported a failure; carries its report.
    Host(String),
}

/// The mathematical content of a [`CreateDirectoryError`].
pub enum CreateDirectoryErrorView {
    Host(Seq<char>),
}

impl View for CreateDirectoryError {
    type V = CreateDirectoryErrorView;

    open spec fn view(&self) -> CreateDirectoryErrorView {
        match self {
            CreateDirectoryError::Host(report) => CreateDirectoryErrorView::Host(report@),
        }
    }
}

impl CreateDirectoryErrorView {
    /// What a human is told about the error.
    pub open spec fn message(self) -> Seq<char> {
        match self {
            CreateDirectoryErrorView::Host(report) => report,
        }
    }
}

impl CreateDirectoryError {
    /// What a human is told about the error.
    pub fn message(&self) -> (text: String)
        ensures
            text@ == self@.message(),
    {
        match self {
            CreateDirectoryError::Host(report) => report.clone(),
        }
    }
}

/// Why moving the unpacked Nix could not be planned or did not succeed.
#[derive(Debug)]
pub enum MoveUnpackedNixError {
    /// The source is not an absolute path; carries the path.
    RelativeSource(String),
    /// The host reported a failure; carries its report.
    Host(String),
}

/// The mathematical content of a [`MoveUnpackedNixError`].
pub enum MoveUnpackedNixErrorView {
    RelativeSource(Seq<char>),
    Host(Seq<char>),
}

impl View for MoveUnpackedNixError {
    type V = MoveUnpackedNixErrorView;

    open spec fn view(&self) -> MoveUnpackedNixErrorView {
        match self {
            MoveUnpackedNixError::RelativeSource(path) => MoveUnpackedNixErrorView::RelativeSource(
                path@,
            ),
            MoveUnpackedNixError::Host(report) => MoveUnpackedNixErrorView::Host(report@),
        }
    }
}

impl MoveUnpackedNixErrorView {
    /// What a human is told about the error.
    pub open spec fn message(self) -> Seq<char> {
        match self {
            MoveUnpackedNixErrorView::RelativeSource(path) => "`"@ + path
                + "` is not an absolute path"@,
            MoveUnpackedNixErrorView::Host(report) => report,
        }
    }
}

impl MoveUnpackedNixError {
    /// What a human is told about the error.
    pub fn message(&self) -> (text: String)
        ensures
            text@ == self@.message(),
    {
        match self {
            MoveUnpackedNixError::RelativeSource(path) => framed(
                "`",
                path,
                "` is not an absolute path",
            ),
            MoveUnpackedNixError::Host(report) => report.clone(),
        }
    }
}

/// Moves what was unpacked at a temporary source path into `/nix`.
#[derive(Debug)]
pub struct MoveUnpackedNix {
    pub source: String,
    pub action_state: ActionState,
}

/// The mathematical content of a [`MoveUnpackedNix`].
pub struct MoveUnpackedNixView {
    pub source: Seq<char>,
    pub action_state: ActionState,
}

impl MoveUnpackedNixView {
    pub open spec fn synopsis(self) -> Seq<char> {
        "Move the unpacked Nix into `/nix`"@
    }

    pub open spec fn describes_execute(self) -> Seq<ActionDescriptionView> {
        seq![
            ActionDescriptionView {
                synopsis: self.synopsis(),
                explanation: seq!["Move the contents of `"@ + self.source + "` into `/nix`"@],
            },
        ]
    }

    pub open spec fn describes_revert(self) -> Seq<ActionDescriptionView> {
        seq![
            ActionDescriptionView {
                synopsis: "Move the unpacked Nix out of `/nix`"@,
                explanation: seq!["Move the contents of `/nix` back to `"@ + self.source + "`"@],
            },
        ]
    }
}

impl View for MoveUnpackedNix {
    type V = MoveUnpackedNixView;

    open spec fn view(&self) -> MoveUnpackedNixView {
        MoveUnpackedNixView { source: self.source@, action_state: self.action_state }
    }
}

impl MoveUnpackedNix {
    /// Plans the move of what lies at `source`. Nothing on the host is
    /// touched. The plan is refused exactly when `source` is not absolute.
    pub fn plan(source: String) -> (planned: Result<Self, MoveUnpackedNixError>)
        ensures
            match planned {
                Ok(action) => {
                    &&& is_absolute(source@)
                    &&& action@ == (MoveUnpackedNixView {
                        source: source@,
                        action_state: ActionState::Uncompleted,
                    })
                },
                Err(error) => {
                    &&& !is_absolute(source@)
                    &&& error@ == MoveUnpackedNixErrorView::RelativeSource(source@)
                },
            },
    {
        if !check_absolute(source.as_str()) {
            return Err(MoveUnpackedNixError::RelativeSource(source));
        }
        Ok(MoveUnpackedNix { source, action_state: ActionState::Uncompleted })
    }
}

impl Action for MoveUnpackedNix {
    open spec fn state(&self) -> ActionState {
        self.action_state
    }

    open spec fn synopsis(&self) -> Seq<char> {
        self@.synopsis()
    }

    open spec fn describes_execute(&self) -> Seq<ActionDescriptionView> {
        self@.describes_execute()
    }

    open spec fn describes_revert(&self) -> Seq<ActionDescriptionView> {
        self@.describes_revert()
    }

    fn tracing_synopsis(&self) -> (synopsis: String) {
        String::from_str("Move the unpacked Nix into `/nix`")
    }

    fn execute_description(&self) -> (descriptions: Vec<ActionDescription>) {
        single_description(
            self.tracing_synopsis(),
            framed("Move the contents of `", &self.source, "` into `/nix`"),
        )
    }

    fn revert_description(&self) -> (descriptions: Vec<ActionDescription>) {
        single_description(
            String::from_str("Move the unpacked Nix out of `/nix`"),
            framed("Move the contents of `/nix` back to `", &self.source, "`"),
        )
    }

    fn action_state(&self) -> (state: ActionState) {
        self.action_state
    }

    fn set_action_state(&mut self, action_state: ActionState)
        ensures
            final(self)@ == (MoveUnpackedNixView { action_state, ..old(self)@ }),
    {
        self.action_state = action_state;
    }
}

} // verus!
