//! Working out the environment variables that make Nix usable in a shell.
//!
//! The variables are calculated from what the environment holds already and
//! from two facts about the file system. Reading both is left to the caller.

use crate::cli::subcommand::paths::{
    append_paths, bytes_of, copy_of, env_path, extend, join_path, join_paths, joined_list,
    joined_path, listed_paths, nonempty, nonempty_var_os, optional, push_path, same_bytes,
};
use crate::cli::subcommand::sample::{json_string_map, parse_sample, sample_of, SampleError};
use vstd::prelude::*;
use vstd::string::StringSliceAdditionalSpecFns;

verus! {

/// Why the environment could not be calculated.
#[derive(Debug)]
pub enum Error {
    HomeNotSet,
    AlreadyRun,
    InvalidXdgDataDirs(Vec<Vec<u8>>),
    InvalidPathDirs(Vec<Vec<u8>>),
    InvalidManPathDirs(Vec<Vec<u8>>),
}

/// The mathematical content of an [`Error`].
pub enum ErrorView {
    HomeNotSet,
    AlreadyRun,
    InvalidXdgDataDirs(Seq<Seq<u8>>),
    InvalidPathDirs(Seq<Seq<u8>>),
    InvalidManPathDirs(Seq<Seq<u8>>),
}

impl ErrorView {
    /// What a human is told about the error.
    pub open spec fn message(self) -> Seq<char> {
        match self {
            ErrorView::HomeNotSet => "The HOME environment variable is not set."@,
            ErrorView::AlreadyRun => "__ETC_PROFILE_NIX_SOURCED is set, indicating the relevant environment variables have already been set."@,
            ErrorView::InvalidXdgDataDirs(_) => "Some of the paths from Nix for XDG_DATA_DIR are not valid, due to an illegal character, like a colon."@,
            ErrorView::InvalidPathDirs(_) => "Some of the paths from Nix for PATH are not valid, due to an illegal character, like a colon."@,
            ErrorView::InvalidManPathDirs(_) => "Some of the paths from Nix for MANPATH are not valid, due to an illegal character, like a colon."@,
        }
    }
}

impl View for Error {
    type V = ErrorView;

    open spec fn view(&self) -> ErrorView {
        match self {
            Error::HomeNotSet => ErrorView::HomeNotSet,
            Error::AlreadyRun => ErrorView::AlreadyRun,
            Error::InvalidXdgDataDirs(paths) => ErrorView::InvalidXdgDataDirs(paths.deep_view()),
            Error::InvalidPathDirs(paths) => ErrorView::InvalidPathDirs(paths.deep_view()),
            Error::InvalidManPathDirs(paths) => ErrorView::InvalidManPathDirs(paths.deep_view()),
        }
    }
}

impl Error {
    /// What a human is told about the error.
    pub fn message(&self) -> (text: String)
        ensures
            text@ == self@.message(),
    {
        match self {
            Error::HomeNotSet => String::from_str("The HOME environment variable is not set."),
            Error::AlreadyRun => String::from_str(
                "__ETC_PROFILE_NIX_SOURCED is set, indicating the relevant environment variables have already been set.",
            ),
            Error::InvalidXdgDataDirs(_) => String::from_str(
                "Some of the paths from Nix for XDG_DATA_DIR are not valid, due to an illegal character, like a colon.",
            ),
            Error::InvalidPathDirs(_) => String::from_str(
                "Some of the paths from Nix for PATH are not valid, due to an illegal character, like a colon.",
            ),
            Error::InvalidManPathDirs(_) => String::from_str(
                "Some of the paths from Nix for MANPATH are not valid, due to an illegal character, like a colon.",
            ),
        }
    }
}

/// The environment variables that the calculation reads, each with its value
/// if it is set.
#[derive(Debug)]
pub struct Variables {
    pub etc_profile_nix_sourced: Option<Vec<u8>>,
    pub home: Option<Vec<u8>>,
    pub xdg_state_home: Option<Vec<u8>>,
    pub xdg_data_dirs: Option<Vec<u8>>,
    pub nix_ssl_cert_file: Option<Vec<u8>>,
    pub path: Option<Vec<u8>>,
    pub manpath: Option<Vec<u8>>,
}

/// The mathematical content of [`Variables`].
pub struct VariablesView {
    pub etc_profile_nix_sourced: Option<Seq<u8>>,
    pub home: Option<Seq<u8>>,
    pub xdg_state_home: Option<Seq<u8>>,
    pub xdg_data_dirs: Option<Seq<u8>>,
    pub nix_ssl_cert_file: Option<Seq<u8>>,
    pub path: Option<Seq<u8>>,
    pub manpath: Option<Seq<u8>>,
}

impl View for Variables {
    type V = VariablesView;

    open spec fn view(&self) -> VariablesView {
        VariablesView {
            etc_profile_nix_sourced: optional(self.etc_profile_nix_sourced),
            home: optional(self.home),
            xdg_state_home: optional(self.xdg_state_home),
            xdg_data_dirs: optional(self.xdg_data_dirs),
            nix_ssl_cert_file: optional(self.nix_ssl_cert_file),
            path: optional(self.path),
            manpath: optional(self.manpath),
        }
    }
}

/// One environment variable to set: its name and its value.
#[derive(Debug)]
pub struct Variable {
    pub name: String,
    pub value: Vec<u8>,
}

/// The mathematical content of a [`Variable`].
pub struct VariableView {
    pub name: Seq<char>,
    pub value: Seq<u8>,
}

impl View for Variable {
    type V = VariableView;

    open spec fn view(&self) -> VariableView {
        VariableView { name: self.name@, value: self.value@ }
    }
}

impl DeepView for Variable {
    type V = VariableView;

    open spec fn deep_view(&self) -> VariableView {
        self@
    }
}

/// The profile that every user of the host shares.
pub open spec fn default_profile() -> Seq<u8> {
    joined_path("/nix/var".spec_bytes(), "nix/profiles/default".spec_bytes())
}

/// Where the profile of a user lies when the state directory of the desktop
/// conventions is used: below `XDG_STATE_HOME` if that is set to something,
/// below `.local/state` in the home directory otherwise.
pub open spec fn xdg_profile(home: Seq<u8>, xdg_state_home: Option<Seq<u8>>) -> Seq<u8> {
    joined_path(
        match nonempty(xdg_state_home) {
            Some(state) => state,
            None => joined_path(home, ".local/state".spec_bytes()),
        },
        "nix/profile".spec_bytes(),
    )
}

/// The profile of the user: the one of the desktop conventions if that is a
/// symbolic link, the one directly in the home directory otherwise.
pub open spec fn user_profile(
    home: Seq<u8>,
    xdg_state_home: Option<Seq<u8>>,
    xdg_profile_is_symlink: bool,
) -> Seq<u8> {
    if xdg_profile_is_symlink {
        xdg_profile(home, xdg_state_home)
    } else {
        joined_path(home, ".nix-profile".spec_bytes())
    }
}

/// Where a bundle of certificates may lie, most preferred first: the usual
/// places of the host, then the profile of the user, then the shared profile.
pub open spec fn certificate_places(profile: Seq<u8>) -> Seq<Seq<u8>> {
    seq![
        "/etc/ssl/certs/ca-certificates.crt".spec_bytes(),
        "/etc/ssl/ca-bundle.pem".spec_bytes(),
        "/etc/ssl/certs/ca-bundle.crt".spec_bytes(),
        "/etc/pki/tls/certs/ca-bundle.crt".spec_bytes(),
        joined_path(profile, "etc/ssl/certs/ca-bundle.crt".spec_bytes()),
        joined_path(profile, "etc/ca-bundle.crt".spec_bytes()),
        joined_path(default_profile(), "etc/ssl/certs/ca-bundle.crt".spec_bytes()),
        joined_path(default_profile(), "etc/ca-bundle.crt".spec_bytes()),
    ]
}

impl VariablesView {
    /// Whether the variables say that the environment has been set up already.
    pub open spec fn already_run(self) -> bool {
        nonempty(self.etc_profile_nix_sourced) == Some("1".spec_bytes())
    }

    /// The path of which the caller has to say whether it is a symbolic
    /// link: none when no home directory is known.
    pub open spec fn xdg_profile_location(self) -> Option<Seq<u8>> {
        match nonempty(self.home) {
            Some(home) => Some(xdg_profile(home, self.xdg_state_home)),
            None => None,
        }
    }

    /// The paths of which the caller has to say whether they are files, in
    /// the order in which they are preferred: none when a bundle of
    /// certificates is named already or no home directory is known.
    pub open spec fn certificate_candidates(self, xdg_profile_is_symlink: bool) -> Seq<Seq<u8>> {
        match nonempty(self.home) {
            Some(home) => if nonempty(self.nix_ssl_cert_file) is None {
                certificate_places(user_profile(home, self.xdg_state_home, xdg_profile_is_symlink))
            } else {
                Seq::empty()
            },
            None => Seq::empty(),
        }
    }
}

/// Whether `index` is the first candidate that is said to be present.
pub open spec fn is_first_present(present: Seq<bool>, count: nat, index: int) -> bool {
    &&& 0 <= index < count
    &&& index < present.len()
    &&& present[index]
    &&& forall|earlier: int| 0 <= earlier < index ==> !#[trigger] present[earlier]
}

/// The first of `candidates` that is said to be present. A candidate of which
/// nothing is said counts as absent.
pub open spec fn first_present(candidates: Seq<Seq<u8>>, present: Seq<bool>) -> Option<Seq<u8>> {
    if exists|index: int| is_first_present(present, candidates.len(), index) {
        Some(candidates[choose|index: int| is_first_present(present, candidates.len(), index)])
    } else {
        None
    }
}

/// The directories that are searched for data.
pub open spec fn data_dirs(vars: VariablesView, profile: Seq<u8>) -> Seq<Seq<u8>> {
    (match listed_paths(vars.xdg_data_dirs) {
        Some(dirs) => dirs,
        None => seq!["/usr/local/share".spec_bytes(), "/usr/share".spec_bytes()],
    }).push(joined_path(profile, "share".spec_bytes())).push(
        joined_path("/nix/var".spec_bytes(), "nix/profiles/default/share".spec_bytes()),
    )
}

/// The directories that are searched for programs.
pub open spec fn program_dirs(vars: VariablesView, profile: Seq<u8>) -> Seq<Seq<u8>> {
    seq![
        joined_path(profile, "bin".spec_bytes()),
        joined_path("/nix/var".spec_bytes(), "nix/profiles/default/bin".spec_bytes()),
    ] + match listed_paths(vars.path) {
        Some(dirs) => dirs,
        None => Seq::empty(),
    }
}

/// The directories that are searched for manual pages, given those that
/// were searched before.
pub open spec fn manual_dirs(old: Seq<Seq<u8>>, profile: Seq<u8>) -> Seq<Seq<u8>> {
    seq![
        joined_path(profile, "share/man".spec_bytes()),
        joined_path("/nix/var".spec_bytes(), "nix/profiles/default/share/man".spec_bytes()),
    ] + old
}

/// One variable to set.
pub open spec fn variable(name: Seq<char>, value: Seq<u8>) -> VariableView {
    VariableView { name, value }
}

/// The variables to set, in the order in which they are decided, once every
/// value is known.
pub open spec fn assembled(
    profile: Seq<u8>,
    data: Seq<u8>,
    certificate: Option<Seq<u8>>,
    programs: Seq<u8>,
    manual: Option<Seq<u8>>,
) -> Seq<VariableView> {
    seq![
        variable("__ETC_PROFILE_NIX_SOURCED"@, "1".spec_bytes()),
        variable("NIX_PROFILES"@, default_profile() + " ".spec_bytes() + profile),
        variable("XDG_DATA_DIRS"@, data),
    ] + match certificate {
        Some(file) => seq![variable("NIX_SSL_CERT_FILE"@, file)],
        None => Seq::empty(),
    } + seq![variable("PATH"@, programs)] + match manual {
        Some(dirs) => seq![variable("MANPATH"@, dirs)],
        None => Seq::empty(),
    }
}

/// The variables to set for a user whose home directory is `home`.
pub open spec fn environment_at(
    vars: VariablesView,
    home: Seq<u8>,
    xdg_profile_is_symlink: bool,
    certificate_is_file: Seq<bool>,
) -> Result<Seq<VariableView>, ErrorView> {
    let profile = user_profile(home, vars.xdg_state_home, xdg_profile_is_symlink);
    let certificate = first_present(
        vars.certificate_candidates(xdg_profile_is_symlink),
        certificate_is_file,
    );
    match joined_list(data_dirs(vars, profile)) {
        None => Err(ErrorView::InvalidXdgDataDirs(data_dirs(vars, profile))),
        Some(data) => match joined_list(program_dirs(vars, profile)) {
            None => Err(ErrorView::InvalidPathDirs(program_dirs(vars, profile))),
            Some(programs) => match listed_paths(vars.manpath) {
                None => Ok(assembled(profile, data, certificate, programs, None)),
                Some(old) => match joined_list(manual_dirs(old, profile)) {
                    None => Err(ErrorView::InvalidManPathDirs(manual_dirs(old, profile))),
                    Some(manual) => Ok(
                        assembled(profile, data, certificate, programs, Some(manual)),
                    ),
                },
            },
        },
    }
}

/// The variables to set, or the reason why none are: the environment is set
/// up already; else no home directory is known; else one of the lists of
/// directories, taken in the order data, programs, manual pages, holds a
/// directory that cannot stand in a list.
pub open spec fn environment(
    vars: VariablesView,
    xdg_profile_is_symlink: bool,
    certificate_is_file: Seq<bool>,
) -> Result<Seq<VariableView>, ErrorView> {
    if vars.already_run() {
        Err(ErrorView::AlreadyRun)
    } else {
        match nonempty(vars.home) {
            None => Err(ErrorView::HomeNotSet),
            Some(home) => environment_at(vars, home, xdg_profile_is_symlink, certificate_is_file),
        }
    }
}

/// The mathematical content of what the calculation returns.
pub open spec fn calculated_view(calculated: Result<Vec<Variable>, Error>) -> Result<
    Seq<VariableView>,
    ErrorView,
> {
    match calculated {
        Ok(variables) => Ok(variables.deep_view()),
        Err(error) => Err(error@),
    }
}

fn default_profile_path() -> (path: Vec<u8>)
    ensures
        path@ == default_profile(),
{
    join_path(&bytes_of("/nix/var"), "nix/profiles/default")
}

fn xdg_profile_path(home: &Vec<u8>, xdg_state_home: &Option<Vec<u8>>) -> (path: Vec<u8>)
    ensures
        path@ == xdg_profile(home@, optional(*xdg_state_home)),
{
    let state = match nonempty_var_os(xdg_state_home) {
        Some(state) => state,
        None => join_path(home, ".local/state"),
    };
    join_path(&state, "nix/profile")
}

fn user_profile_path(
    home: &Vec<u8>,
    xdg_state_home: &Option<Vec<u8>>,
    xdg_profile_is_symlink: bool,
) -> (path: Vec<u8>)
    ensures
        path@ == user_profile(home@, optional(*xdg_state_home), xdg_profile_is_symlink),
{
    if xdg_profile_is_symlink {
        xdg_profile_path(home, xdg_state_home)
    } else {
        join_path(home, ".nix-profile")
    }
}

fn certificate_places_of(profile: &Vec<u8>) -> (places: Vec<Vec<u8>>)
    ensures
        places.deep_view() == certificate_places(profile@),
{
    let shared = default_profile_path();
    let mut places: Vec<Vec<u8>> = Vec::new();
    assert(places.deep_view() =~= Seq::<Seq<u8>>::empty());
    push_path(&mut places, bytes_of("/etc/ssl/certs/ca-certificates.crt"));
    push_path(&mut places, bytes_of("/etc/ssl/ca-bundle.pem"));
    push_path(&mut places, bytes_of("/etc/ssl/certs/ca-bundle.crt"));
    push_path(&mut places, bytes_of("/etc/pki/tls/certs/ca-bundle.crt"));
    push_path(&mut places, join_path(profile, "etc/ssl/certs/ca-bundle.crt"));
    push_path(&mut places, join_path(profile, "etc/ca-bundle.crt"));
    push_path(&mut places, join_path(&shared, "etc/ssl/certs/ca-bundle.crt"));
    push_path(&mut places, join_path(&shared, "etc/ca-bundle.crt"));
    assert(places.deep_view() =~= certificate_places(profile@));
    places
}

impl Variables {
    /// The path of which the caller has to find out whether it is a symbolic
    /// link, before the environment can be calculated.
    pub fn xdg_profile_location(&self) -> (location: Option<Vec<u8>>)
        ensures
            optional(location) == self@.xdg_profile_location(),
    {
        match nonempty_var_os(&self.home) {
            Some(home) => Some(xdg_profile_path(&home, &self.xdg_state_home)),
            None => None,
        }
    }

    /// The paths of which the caller has to find out whether they are files,
    /// before the environment can be calculated.
    pub fn certificate_candidates(&self, xdg_profile_is_symlink: bool) -> (candidates: Vec<
        Vec<u8>,
    >)
        ensures
            candidates.deep_view() == self@.certificate_candidates(xdg_profile_is_symlink),
    {
        let none: Vec<Vec<u8>> = Vec::new();
        assert(none.deep_view() =~= Seq::<Seq<u8>>::empty());
        match nonempty_var_os(&self.home) {
            Some(home) => {
                if nonempty_var_os(&self.nix_ssl_cert_file).is_none() {
                    certificate_places_of(
                        &user_profile_path(&home, &self.xdg_state_home, xdg_profile_is_symlink),
                    )
                } else {
                    none
                }
            },
            None => none,
        }
    }
}

/// Picks the first of `candidates` that is said to be present.
pub fn choose_present(candidates: &Vec<Vec<u8>>, present: &Vec<bool>) -> (chosen: Option<Vec<u8>>)
    ensures
        optional(chosen) == first_present(candidates.deep_view(), present@),
{
    let mut i: usize = 0;
    while i < candidates.len() && i < present.len()
        invariant
            i <= candidates.len(),
            i <= present.len(),
            forall|earlier: int| 0 <= earlier < i ==> !#[trigger] present@[earlier],
        decreases candidates.len() - i,
    {
        if present[i] {
            proof {
                let count = candidates.deep_view().len();
                assert(is_first_present(present@, count, i as int));
                let picked = choose|index: int| is_first_present(present@, count, index);
                assert(picked == i) by {
                    if picked < i {
                        assert(!present@[picked]);
                    } else if picked > i {
                        assert(!present@[i as int]);
                    }
                }
                crate::cli::subcommand::paths::lemma_bytes_view(candidates[i as int]);
            }
            return Some(copy_of(&candidates[i]));
        }
        i += 1;
    }
    assert forall|index: int| !is_first_present(
        present@,
        candidates.deep_view().len(),
        index,
    ) by {
        if is_first_present(present@, candidates.deep_view().len(), index) {
            assert(!present@[index]);
        }
    }
    None
}

fn push_variable(variables: &mut Vec<Variable>, name: &str, value: Vec<u8>)
    ensures
        final(variables).deep_view() == old(variables).deep_view().push(variable(name@, value@)),
{
    let ghost before = variables.deep_view();
    variables.push(Variable { name: String::from_str(name), value });
    assert(variables.deep_view() =~= before.push(variable(name@, value@)));
}

/// Calculates the environment variables to set so that Nix can be used,
/// from the variables that are set already, from whether the path that
/// [`Variables::xdg_profile_location`] names is a symbolic link, and from
/// which of the paths that [`Variables::certificate_candidates`] names are
/// files (one answer for each path, in their order).
pub fn calculate_environment(
    variables: &Variables,
    xdg_profile_is_symlink: bool,
    certificate_is_file: &Vec<bool>,
) -> (calculated: Result<Vec<Variable>, Error>)
    ensures
        calculated_view(calculated) == environment(
            variables@,
            xdg_profile_is_symlink,
            certificate_is_file@,
        ),
{
    let already_run = match nonempty_var_os(&variables.etc_profile_nix_sourced) {
        Some(value) => same_bytes(&value, &bytes_of("1")),
        None => false,
    };
    if already_run {
        return Err(Error::AlreadyRun);
    }
    let home = match nonempty_var_os(&variables.home) {
        Some(home) => home,
        None => {
            return Err(Error::HomeNotSet);
        },
    };
    let mut envs: Vec<Variable> = Vec::new();
    assert(envs.deep_view() =~= Seq::<VariableView>::empty());
    push_variable(&mut envs, "__ETC_PROFILE_NIX_SOURCED", bytes_of("1"));

    let nix_link = user_profile_path(&home, &variables.xdg_state_home, xdg_profile_is_symlink);
    let mut nix_profiles = default_profile_path();
    extend(&mut nix_profiles, &bytes_of(" "));
    extend(&mut nix_profiles, &nix_link);
    push_variable(&mut envs, "NIX_PROFILES", nix_profiles);

    let mut xdg_data_dirs = match env_path(&variables.xdg_data_dirs) {
        Some(dirs) => dirs,
        None => {
            let mut dirs: Vec<Vec<u8>> = Vec::new();
            assert(dirs.deep_view() =~= Seq::<Seq<u8>>::empty());
            push_path(&mut dirs, bytes_of("/usr/local/share"));
            push_path(&mut dirs, bytes_of("/usr/share"));
            assert(dirs.deep_view() =~= seq![
                "/usr/local/share".spec_bytes(),
                "/usr/share".spec_bytes(),
            ]);
            dirs
        },
    };
    push_path(&mut xdg_data_dirs, join_path(&nix_link, "share"));
    push_path(
        &mut xdg_data_dirs,
        join_path(&bytes_of("/nix/var"), "nix/profiles/default/share"),
    );
    match join_paths(&xdg_data_dirs) {
        Some(dirs) => {
            push_variable(&mut envs, "XDG_DATA_DIRS", dirs);
        },
        None => {
            return Err(Error::InvalidXdgDataDirs(xdg_data_dirs));
        },
    }

    let candidates = variables.certificate_candidates(xdg_profile_is_symlink);
    match choose_present(&candidates, certificate_is_file) {
        Some(file) => {
            push_variable(&mut envs, "NIX_SSL_CERT_FILE", file);
        },
        None => {},
    }

    let mut path: Vec<Vec<u8>> = Vec::new();
    assert(path.deep_view() =~= Seq::<Seq<u8>>::empty());
    push_path(&mut path, join_path(&nix_link, "bin"));
    push_path(&mut path, join_path(&bytes_of("/nix/var"), "nix/profiles/default/bin"));
    match env_path(&variables.path) {
        Some(old_path) => {
            append_paths(&mut path, old_path);
        },
        None => {},
    }
    assert(path.deep_view() =~= program_dirs(variables@, nix_link@));
    match join_paths(&path) {
        Some(dirs) => {
            push_variable(&mut envs, "PATH", dirs);
        },
        None => {
            return Err(Error::InvalidPathDirs(path));
        },
    }

    match env_path(&variables.manpath) {
        Some(old_path) => {
            let mut path: Vec<Vec<u8>> = Vec::new();
            assert(path.deep_view() =~= Seq::<Seq<u8>>::empty());
            push_path(&mut path, join_path(&nix_link, "share/man"));
            push_path(
                &mut path,
                join_path(&bytes_of("/nix/var"), "nix/profiles/default/share/man"),
            );
            let ghost old = old_path.deep_view();
            append_paths(&mut path, old_path);
            assert(path.deep_view() =~= manual_dirs(old, nix_link@));
            match join_paths(&path) {
                Some(dirs) => {
                    push_variable(&mut envs, "MANPATH", dirs);
                },
                None => {
                    return Err(Error::InvalidManPathDirs(path));
                },
            }
        },
        None => {},
    }
    assert(calculated_view(Ok(envs)) =~= environment(
        variables@,
        xdg_profile_is_symlink,
        certificate_is_file@,
    )) by {
        let certificate = first_present(
            variables@.certificate_candidates(xdg_profile_is_symlink),
            certificate_is_file@,
        );
        let data = joined_list(data_dirs(variables@, nix_link@))->Some_0;
        let programs = joined_list(program_dirs(variables@, nix_link@))->Some_0;
        let manual = match listed_paths(variables@.manpath) {
            Some(old) => joined_list(manual_dirs(old, nix_link@)),
            None => None,
        };
        assert(envs.deep_view() =~= assembled(nix_link@, data, certificate, programs, manual));
    }
    Ok(envs)
}

/// The shell for which the variables are written out.
#[derive(Clone, Copy, Debug, PartialEq, Eq, Structural)]
pub enum ExportFormat {
    Fish,
    Sh,
}

/// How names and values are escaped when they are written out.
#[derive(Clone, Copy, Debug, PartialEq, Eq, Structural)]
pub enum Encoding {
    Fish,
    PosixShell,
}

/// How the command ends when it writes nothing.
#[derive(Clone, Copy, Debug, PartialEq, Eq, Structural)]
pub enum ExitCode {
    Success,
    Failure,
}

/// Emit all the environment variables that should be set to use Nix.
#[derive(Debug)]
pub struct Export {
    pub format: ExportFormat,
    /// A file to take the variables from, in place of calculating them.
    pub sample_output: Option<Vec<u8>>,
}

/// What the command was given to work on.
#[derive(Debug)]
pub enum Input {
    /// The content of the sample file.
    Sample(Vec<u8>),
    /// What the calculation of the environment returned.
    Calculated(Result<Vec<Variable>, Error>),
}

/// What the command does in the end.
#[derive(Debug)]
pub enum Emission {
    /// Write the variables to standard output in the given encoding, and
    /// end with success.
    Write(Encoding, Vec<Variable>),
    /// Write nothing and end with the given code.
    Exit(ExitCode),
}

/// The mathematical content of an [`Emission`].
pub enum EmissionView {
    Write(Encoding, Seq<VariableView>),
    Exit(ExitCode),
}

impl View for Emission {
    type V = EmissionView;

    open spec fn view(&self) -> EmissionView {
        match self {
            Emission::Write(encoding, variables) => EmissionView::Write(
                *encoding,
                variables.deep_view(),
            ),
            Emission::Exit(code) => EmissionView::Exit(*code),
        }
    }
}

impl ExportFormat {
    /// The encoding that goes with the shell.
    pub open spec fn encoding(self) -> Encoding {
        match self {
            ExportFormat::Fish => Encoding::Fish,
            ExportFormat::Sh => Encoding::PosixShell,
        }
    }
}

/// What the command does with what the calculation returned: the variables
/// are written; an environment that is set up already is no failure and ends
/// the command quietly; any other error ends it with the failure code.
pub open spec fn emission_of(
    format: ExportFormat,
    calculated: Result<Seq<VariableView>, ErrorView>,
) -> EmissionView {
    match calculated {
        Ok(variables) => EmissionView::Write(format.encoding(), variables),
        Err(ErrorView::AlreadyRun) => EmissionView::Exit(ExitCode::Success),
        Err(_) => EmissionView::Exit(ExitCode::Failure),
    }
}

impl Export {
    /// The encoding in which the command writes.
    pub fn encoding(&self) -> (encoding: Encoding)
        ensures
            encoding == self.format.encoding(),
    {
        match self.format {
            ExportFormat::Fish => Encoding::Fish,
            ExportFormat::Sh => Encoding::PosixShell,
        }
    }

    /// Decides what the command does, given the content of the sample file
    /// when one was named, and what the calculation of the environment
    /// returned otherwise. Only a sample that cannot be read is an error of
    /// the command itself.
    pub fn execute(&self, input: Input) -> (emission: Result<Emission, SampleError>)
        ensures
            match input {
                Input::Sample(bytes) => match json_string_map(bytes@) {
                    Some(entries) => emission is Ok && emission->Ok_0@ == EmissionView::Write(
                        self.format.encoding(),
                        sample_of(entries),
                    ),
                    None => emission is Err,
                },
                Input::Calculated(calculated) => emission is Ok && emission->Ok_0@ == emission_of(
                    self.format,
                    calculated_view(calculated),
                ),
            },
    {
        match input {
            Input::Sample(bytes) => match parse_sample(&bytes) {
                Ok(variables) => Ok(Emission::Write(self.encoding(), variables)),
                Err(error) => Err(error),
            },
            Input::Calculated(Ok(variables)) => Ok(Emission::Write(self.encoding(), variables)),
            Input::Calculated(Err(Error::AlreadyRun)) => Ok(Emission::Exit(ExitCode::Success)),
            Input::Calculated(Err(_)) => Ok(Emission::Exit(ExitCode::Failure)),
        }
    }
}

} // verus!
