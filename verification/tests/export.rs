use nix_installer::cli::subcommand::export::{
    calculate_environment, choose_present, Emission, Encoding, Error, ExitCode, Export,
    ExportFormat, Input, Variable, Variables,
};
use nix_installer::cli::subcommand::paths::{
    bytes_of, copy_of, env_path, extend, holds, join_path, join_paths, nonempty_var_os, same_bytes,
    split_paths,
};
use nix_installer::cli::subcommand::sample::{parse_sample, sample_variables};

fn b(text: &str) -> Vec<u8> {
    text.as_bytes().to_vec()
}

fn list(paths: &[&str]) -> Vec<Vec<u8>> {
    paths.iter().map(|p| b(p)).collect()
}

fn home(path: &str) -> Variables {
    Variables {
        etc_profile_nix_sourced: None,
        home: Some(b(path)),
        xdg_state_home: None,
        xdg_data_dirs: None,
        nix_ssl_cert_file: None,
        path: None,
        manpath: None,
    }
}

fn pairs(variables: &[Variable]) -> Vec<(String, String)> {
    variables
        .iter()
        .map(|v| (v.name.clone(), String::from_utf8(v.value.clone()).unwrap()))
        .collect()
}

fn expect(entries: &[(&str, &str)]) -> Vec<(String, String)> {
    entries.iter().map(|(k, v)| (k.to_string(), v.to_string())).collect()
}

#[test]
fn paths_are_joined_with_one_separator() {
    assert_eq!(join_path(&b("/home/alice"), ".nix-profile"), b("/home/alice/.nix-profile"));
    assert_eq!(join_path(&b("/home/alice/"), ".nix-profile"), b("/home/alice/.nix-profile"));
    assert_eq!(join_path(&b("/"), "nix"), b("/nix"));
    assert_eq!(join_path(&b(""), "nix/profile"), b("nix/profile"));
    assert_eq!(join_path(&b("/nix/var"), "nix/profiles/default"), b("/nix/var/nix/profiles/default"));
    assert_eq!(join_path(&b("rel"), ""), b("rel/"));
}

#[test]
fn lists_are_split_at_every_colon() {
    assert_eq!(split_paths(&b("/usr/bin:/bin")), list(&["/usr/bin", "/bin"]));
    assert_eq!(split_paths(&b("/usr/bin")), list(&["/usr/bin"]));
    assert_eq!(split_paths(&b("a::b")), list(&["a", "", "b"]));
    assert_eq!(split_paths(&b(":a:")), list(&["", "a", ""]));
    assert_eq!(split_paths(&b(":")), list(&["", ""]));
    assert_eq!(split_paths(&b("")), list(&[""]));
}

#[test]
fn lists_are_joined_with_colons_unless_a_path_holds_one() {
    assert_eq!(join_paths(&list(&["/usr/bin", "/bin"])), Some(b("/usr/bin:/bin")));
    assert_eq!(join_paths(&list(&["/usr/bin"])), Some(b("/usr/bin")));
    assert_eq!(join_paths(&list(&[])), Some(b("")));
    assert_eq!(join_paths(&list(&["a", "", "b"])), Some(b("a::b")));
    assert_eq!(join_paths(&list(&["", ""])), Some(b(":")));
    assert_eq!(join_paths(&list(&["/usr/bin", "/b:in"])), None);
    assert_eq!(join_paths(&list(&[":"])), None);
}

#[test]
fn splitting_and_joining_gives_the_list_back() {
    for text in ["", ":", "a", "a:b", "::a::", "/usr/bin:/bin:/usr/local/bin", "a b:c\nd"] {
        assert_eq!(join_paths(&split_paths(&b(text))), Some(b(text)));
    }
}

#[test]
fn an_empty_value_counts_as_not_set() {
    assert_eq!(nonempty_var_os(&None), None);
    assert_eq!(nonempty_var_os(&Some(b(""))), None);
    assert_eq!(nonempty_var_os(&Some(b("1"))), Some(b("1")));
    assert_eq!(nonempty_var_os(&Some(vec![0xff, 0x00])), Some(vec![0xff, 0x00]));
}

#[test]
fn a_variable_lists_its_paths() {
    assert_eq!(env_path(&None), None);
    assert_eq!(env_path(&Some(b(""))), Some(list(&[])));
    assert_eq!(env_path(&Some(b("/usr/bin"))), Some(list(&["/usr/bin"])));
    assert_eq!(env_path(&Some(b("/usr/bin::/bin"))), Some(list(&["/usr/bin", "", "/bin"])));
}

#[test]
fn byte_helpers_do_what_they_say() {
    assert_eq!(bytes_of("/nix/var"), b("/nix/var"));
    assert_eq!(bytes_of("é"), vec![0xc3, 0xa9]);
    assert_eq!(copy_of(&b("abc")), b("abc"));
    let mut bytes = b("ab");
    extend(&mut bytes, &b("cd"));
    assert_eq!(bytes, b("abcd"));
    assert!(same_bytes(&b("abc"), &b("abc")));
    assert!(!same_bytes(&b("abc"), &b("abd")));
    assert!(!same_bytes(&b("abc"), &b("ab")));
    assert!(same_bytes(&b(""), &b("")));
    assert!(holds(&b("a:b"), b':'));
    assert!(!holds(&b("ab"), b':'));
    assert!(!holds(&b(""), b':'));
}

#[test]
fn environment_of_a_plain_home() {
    let calculated = calculate_environment(&home("/home/alice"), false, &[false; 8].to_vec()).unwrap();
    assert_eq!(
        pairs(&calculated),
        expect(&[
            ("__ETC_PROFILE_NIX_SOURCED", "1"),
            ("NIX_PROFILES", "/nix/var/nix/profiles/default /home/alice/.nix-profile"),
            (
                "XDG_DATA_DIRS",
                "/usr/local/share:/usr/share:/home/alice/.nix-profile/share:/nix/var/nix/profiles/default/share"
            ),
            ("PATH", "/home/alice/.nix-profile/bin:/nix/var/nix/profiles/default/bin"),
        ])
    );
}

#[test]
fn environment_with_everything_set() {
    let variables = Variables {
        etc_profile_nix_sourced: Some(b("0")),
        home: Some(b("/home/alice/")),
        xdg_state_home: Some(b("/state")),
        xdg_data_dirs: Some(b("/data:/more")),
        nix_ssl_cert_file: None,
        path: Some(b("/usr/bin:/bin")),
        manpath: Some(b("/usr/share/man")),
    };
    let present = vec![false, false, true, false, true, false, false, false];
    let calculated = calculate_environment(&variables, true, &present).unwrap();
    assert_eq!(
        pairs(&calculated),
        expect(&[
            ("__ETC_PROFILE_NIX_SOURCED", "1"),
            ("NIX_PROFILES", "/nix/var/nix/profiles/default /state/nix/profile"),
            (
                "XDG_DATA_DIRS",
                "/data:/more:/state/nix/profile/share:/nix/var/nix/profiles/default/share"
            ),
            ("NIX_SSL_CERT_FILE", "/etc/ssl/certs/ca-bundle.crt"),
            ("PATH", "/state/nix/profile/bin:/nix/var/nix/profiles/default/bin:/usr/bin:/bin"),
            (
                "MANPATH",
                "/state/nix/profile/share/man:/nix/var/nix/profiles/default/share/man:/usr/share/man"
            ),
        ])
    );
}

#[test]
fn the_profile_in_the_home_directory_is_used_unless_the_other_is_a_link() {
    let variables = home("/home/alice");
    assert_eq!(variables.xdg_profile_location(), Some(b("/home/alice/.local/state/nix/profile")));
    let linked = calculate_environment(&variables, true, &vec![]).unwrap();
    assert_eq!(
        pairs(&linked)[1],
        (
            "NIX_PROFILES".to_string(),
            "/nix/var/nix/profiles/default /home/alice/.local/state/nix/profile".to_string()
        )
    );
    let mut with_state = home("/home/alice");
    with_state.xdg_state_home = Some(b(""));
    assert_eq!(with_state.xdg_profile_location(), Some(b("/home/alice/.local/state/nix/profile")));
    with_state.xdg_state_home = Some(b("/srv/state/"));
    assert_eq!(with_state.xdg_profile_location(), Some(b("/srv/state/nix/profile")));
    let mut homeless = home("");
    assert_eq!(homeless.xdg_profile_location(), None);
    homeless.home = None;
    assert_eq!(homeless.xdg_profile_location(), None);
}

#[test]
fn certificate_candidates_are_listed_in_the_order_of_preference() {
    let variables = home("/home/alice");
    assert_eq!(
        variables.certificate_candidates(false),
        list(&[
            "/etc/ssl/certs/ca-certificates.crt",
            "/etc/ssl/ca-bundle.pem",
            "/etc/ssl/certs/ca-bundle.crt",
            "/etc/pki/tls/certs/ca-bundle.crt",
            "/home/alice/.nix-profile/etc/ssl/certs/ca-bundle.crt",
            "/home/alice/.nix-profile/etc/ca-bundle.crt",
            "/nix/var/nix/profiles/default/etc/ssl/certs/ca-bundle.crt",
            "/nix/var/nix/profiles/default/etc/ca-bundle.crt",
        ])
    );
    assert_eq!(
        variables.certificate_candidates(true)[4],
        b("/home/alice/.local/state/nix/profile/etc/ssl/certs/ca-bundle.crt")
    );
    let mut named = home("/home/alice");
    named.nix_ssl_cert_file = Some(b("/my/certs.pem"));
    assert!(named.certificate_candidates(false).is_empty());
    named.nix_ssl_cert_file = Some(b(""));
    assert_eq!(named.certificate_candidates(false).len(), 8);
    assert!(home("").certificate_candidates(false).is_empty());
}

#[test]
fn the_first_certificate_that_is_a_file_is_chosen() {
    let candidates = list(&["/a", "/b", "/c"]);
    assert_eq!(choose_present(&candidates, &vec![false, true, true]), Some(b("/b")));
    assert_eq!(choose_present(&candidates, &vec![true, true, true]), Some(b("/a")));
    assert_eq!(choose_present(&candidates, &vec![false, false, false]), None);
    assert_eq!(choose_present(&candidates, &vec![false, false]), None);
    assert_eq!(choose_present(&candidates, &vec![]), None);
    assert_eq!(choose_present(&candidates, &vec![false, false, false, true]), None);
    assert_eq!(choose_present(&list(&[]), &vec![true]), None);
}

#[test]
fn a_certificate_in_the_last_place_is_still_found() {
    let mut present = vec![false; 8];
    present[7] = true;
    let calculated = calculate_environment(&home("/home/alice"), false, &present).unwrap();
    assert_eq!(
        pairs(&calculated)[3],
        (
            "NIX_SSL_CERT_FILE".to_string(),
            "/nix/var/nix/profiles/default/etc/ca-bundle.crt".to_string()
        )
    );
}

#[test]
fn a_named_certificate_file_is_left_alone() {
    let mut variables = home("/home/alice");
    variables.nix_ssl_cert_file = Some(b("/my/certs.pem"));
    let calculated = calculate_environment(&variables, false, &vec![true; 8]).unwrap();
    assert!(pairs(&calculated).iter().all(|(name, _)| name != "NIX_SSL_CERT_FILE"));
    assert_eq!(calculated.len(), 4);
}

#[test]
fn empty_lists_are_lists_of_no_paths() {
    let mut variables = home("/home/alice");
    variables.xdg_data_dirs = Some(b(""));
    variables.path = Some(b(""));
    variables.manpath = Some(b(""));
    let calculated = calculate_environment(&variables, false, &vec![]).unwrap();
    assert_eq!(
        pairs(&calculated),
        expect(&[
            ("__ETC_PROFILE_NIX_SOURCED", "1"),
            ("NIX_PROFILES", "/nix/var/nix/profiles/default /home/alice/.nix-profile"),
            (
                "XDG_DATA_DIRS",
                "/home/alice/.nix-profile/share:/nix/var/nix/profiles/default/share"
            ),
            ("PATH", "/home/alice/.nix-profile/bin:/nix/var/nix/profiles/default/bin"),
            (
                "MANPATH",
                "/home/alice/.nix-profile/share/man:/nix/var/nix/profiles/default/share/man"
            ),
        ])
    );
}

#[test]
fn empty_paths_of_a_list_are_kept() {
    let mut variables = home("/home/alice");
    variables.path = Some(b("/usr/bin::/bin:"));
    let calculated = calculate_environment(&variables, false, &vec![]).unwrap();
    assert_eq!(
        pairs(&calculated)[3],
        (
            "PATH".to_string(),
            "/home/alice/.nix-profile/bin:/nix/var/nix/profiles/default/bin:/usr/bin::/bin:"
                .to_string()
        )
    );
}

#[test]
fn values_that_are_not_text_pass_through() {
    let mut variables = home("/home/alice");
    variables.home = Some(vec![b'/', 0xff, 0xfe]);
    let calculated = calculate_environment(&variables, false, &vec![]).unwrap();
    let mut expected = b("/nix/var/nix/profiles/default ");
    expected.extend([b'/', 0xff, 0xfe]);
    expected.extend(b("/.nix-profile"));
    assert_eq!(calculated[1].name, "NIX_PROFILES");
    assert_eq!(calculated[1].value, expected);
}

#[test]
fn an_environment_that_is_set_up_already_is_not_set_up_again() {
    let mut variables = home("/home/alice");
    variables.etc_profile_nix_sourced = Some(b("1"));
    assert!(matches!(calculate_environment(&variables, false, &vec![]), Err(Error::AlreadyRun)));
    variables.home = None;
    assert!(matches!(calculate_environment(&variables, false, &vec![]), Err(Error::AlreadyRun)));
    variables.etc_profile_nix_sourced = Some(b("11"));
    assert!(matches!(calculate_environment(&variables, false, &vec![]), Err(Error::HomeNotSet)));
}

#[test]
fn a_home_directory_is_needed() {
    let mut variables = home("");
    assert!(matches!(calculate_environment(&variables, false, &vec![]), Err(Error::HomeNotSet)));
    variables.home = None;
    assert!(matches!(calculate_environment(&variables, true, &vec![true]), Err(Error::HomeNotSet)));
}

#[test]
fn a_colon_in_the_home_directory_spoils_the_data_dirs() {
    match calculate_environment(&home("/home/a:b"), false, &vec![]) {
        Err(Error::InvalidXdgDataDirs(dirs)) => assert_eq!(
            dirs,
            list(&[
                "/usr/local/share",
                "/usr/share",
                "/home/a:b/.nix-profile/share",
                "/nix/var/nix/profiles/default/share",
            ])
        ),
        other => panic!("unexpected: {:?}", other),
    }
}

#[test]
fn errors_explain_themselves() {
    assert_eq!(Error::HomeNotSet.message(), "The HOME environment variable is not set.");
    assert_eq!(
        Error::AlreadyRun.message(),
        "__ETC_PROFILE_NIX_SOURCED is set, indicating the relevant environment variables have already been set."
    );
    assert_eq!(
        Error::InvalidXdgDataDirs(vec![]).message(),
        "Some of the paths from Nix for XDG_DATA_DIR are not valid, due to an illegal character, like a colon."
    );
    assert_eq!(
        Error::InvalidPathDirs(vec![]).message(),
        "Some of the paths from Nix for PATH are not valid, due to an illegal character, like a colon."
    );
    assert_eq!(
        Error::InvalidManPathDirs(vec![]).message(),
        "Some of the paths from Nix for MANPATH are not valid, due to an illegal character, like a colon."
    );
}

fn export(format: ExportFormat) -> Export {
    Export { format, sample_output: None }
}

#[test]
fn calculated_variables_are_written_in_the_encoding_of_the_shell() {
    let calculated = calculate_environment(&home("/home/alice"), false, &vec![]);
    match export(ExportFormat::Fish).execute(Input::Calculated(calculated)) {
        Ok(Emission::Write(Encoding::Fish, variables)) => {
            assert_eq!(variables.len(), 4);
            assert_eq!(variables[0].name, "__ETC_PROFILE_NIX_SOURCED");
        },
        other => panic!("unexpected: {:?}", other),
    }
    let calculated = calculate_environment(&home("/home/alice"), false, &vec![]);
    match export(ExportFormat::Sh).execute(Input::Calculated(calculated)) {
        Ok(Emission::Write(Encoding::PosixShell, variables)) => assert_eq!(variables.len(), 4),
        other => panic!("unexpected: {:?}", other),
    }
    assert_eq!(export(ExportFormat::Fish).encoding(), Encoding::Fish);
    assert_eq!(export(ExportFormat::Sh).encoding(), Encoding::PosixShell);
}

#[test]
fn an_environment_that_is_set_up_already_ends_the_command_quietly() {
    match export(ExportFormat::Sh).execute(Input::Calculated(Err(Error::AlreadyRun))) {
        Ok(Emission::Exit(ExitCode::Success)) => {},
        other => panic!("unexpected: {:?}", other),
    }
}

#[test]
fn other_errors_end_the_command_with_the_failure_code() {
    for error in [
        Error::HomeNotSet,
        Error::InvalidXdgDataDirs(list(&["a:b"])),
        Error::InvalidPathDirs(vec![]),
        Error::InvalidManPathDirs(vec![]),
    ] {
        match export(ExportFormat::Fish).execute(Input::Calculated(Err(error))) {
            Ok(Emission::Exit(ExitCode::Failure)) => {},
            other => panic!("unexpected: {:?}", other),
        }
    }
}

#[test]
fn a_sample_is_read_from_json() {
    let text = br#"{ "PATH": "/nix/bin:/usr/bin", "HOME": "/home/alice", "EMPTY": "" }"#;
    let variables = parse_sample(&text.to_vec()).unwrap();
    assert_eq!(
        pairs(&variables),
        expect(&[("EMPTY", ""), ("HOME", "/home/alice"), ("PATH", "/nix/bin:/usr/bin")])
    );
}

#[test]
fn a_sample_keeps_escapes_and_the_last_of_two_equal_names() {
    let text = r#"{"A": "line\nbreak é", "B": "first", "B": "second"}"#;
    let variables = parse_sample(&b(text)).unwrap();
    assert_eq!(variables.len(), 2);
    assert_eq!(variables[0].name, "A");
    assert_eq!(variables[0].value, "line\nbreak é".as_bytes().to_vec());
    assert_eq!(variables[1].name, "B");
    assert_eq!(variables[1].value, b("second"));
}

#[test]
fn a_sample_that_is_no_map_of_strings_is_refused() {
    for text in ["", "{", "[]", "{\"A\": 1}", "{\"A\": \"b\"} trailing", "{\"A\": null}"] {
        let refusal = parse_sample(&b(text));
        assert!(refusal.is_err(), "accepted {:?}", text);
        assert!(!refusal.unwrap_err().message.is_empty());
    }
    assert!(parse_sample(&b("{}")).unwrap().is_empty());
}

#[test]
fn a_sample_is_written_in_the_encoding_of_the_shell() {
    let command = Export { format: ExportFormat::Sh, sample_output: Some(b("sample.json")) };
    match command.execute(Input::Sample(b(r#"{"NIX_PROFILES": "/a /b"}"#))) {
        Ok(Emission::Write(Encoding::PosixShell, variables)) => {
            assert_eq!(pairs(&variables), expect(&[("NIX_PROFILES", "/a /b")]));
        },
        other => panic!("unexpected: {:?}", other),
    }
    assert!(command.execute(Input::Sample(b("not json"))).is_err());
}

#[test]
fn sample_entries_become_variables_in_their_order() {
    let entries = vec![
        ("Z".to_string(), "last".to_string()),
        ("A".to_string(), "é".to_string()),
    ];
    let variables = sample_variables(&entries);
    assert_eq!(variables.len(), 2);
    assert_eq!(variables[0].name, "Z");
    assert_eq!(variables[0].value, b("last"));
    assert_eq!(variables[1].name, "A");
    assert_eq!(variables[1].value, vec![0xc3, 0xa9]);
    assert!(sample_variables(&vec![]).is_empty());
}
