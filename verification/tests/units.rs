use slox::activate::{direct_activation_line, nu_double_quote, shell_single_quote};
use slox::building::{
    build_failure_details, build_plan, build_script_path, built_binary_path, default_config,
    parse_build_config,
};
use slox::cli::{ActivateCommand, Commands, EnvCommand, PkgCommand};
use slox::env::{active_env_file_text, active_env_name_in};
use slox::paths::{join_path, StorePaths};
use slox::pkg::{package_name, package_name_from_remove_arg, parse_pkg, same_text, Pkg};
use slox::shim::Shim;
use slox::term::{rainbow_prefix, report_lines, sparkle_line, status_line, Report};
use slox::text::{cat, contains_char, trimmed};

#[test]
fn trim_removes_unicode_white_space() {
    assert_eq!(trimmed("\u{3000} demo\t\n"), "demo");
    assert_eq!(trimmed("\u{85}a b\u{2009}"), "a b");
    assert_eq!(trimmed(" \n\t"), "");
    assert_eq!(trimmed("x"), "x");
}

#[test]
fn text_helpers() {
    assert_eq!(cat("ab", "cd"), "abcd");
    assert!(contains_char("a@b", '@'));
    assert!(!contains_char("ab", '@'));
    assert!(same_text("github", "github"));
    assert!(!same_text("github", "gitlab"));
}

#[test]
fn join_follows_path_push() {
    assert_eq!(join_path("a", "b"), "a/b");
    assert_eq!(join_path("a/", "b"), "a/b");
    assert_eq!(join_path("a", "/b"), "/b");
    assert_eq!(join_path("", "b"), "b");
    assert_eq!(join_path("a", ""), "a/");
}

#[test]
fn store_layout() {
    let store = StorePaths::under_home("/home/dev");
    assert_eq!(store.base, "/home/dev/.slox");
    assert_eq!(store.env_dir("demo"), "/home/dev/.slox/env/demo");
    assert_eq!(store.env_bin_dir("demo"), "/home/dev/.slox/env/demo/bin");
    assert_eq!(store.root_bin_dir(), "/home/dev/.slox/root/bin");
    assert_eq!(store.shim_bin_dir(), "/home/dev/.slox/bin");
    assert_eq!(store.cache_root(), "/home/dev/.slox/tmp");
    assert_eq!(store.active_env_file(), "/home/dev/.slox/active-env");
    assert_eq!(StorePaths::new("/s").base, "/s");
}

#[test]
fn store_of_the_current_user_is_named_slox() {
    if let Some(store) = StorePaths::from_home() {
        assert!(store.base.ends_with(".slox"));
    }
}

#[test]
fn github_spec_splits_at_first_slash_and_last_at() {
    match parse_pkg("a/b/c@x@github").expect("should parse") {
        Pkg::GitHub { user, repo } => {
            assert_eq!(user, "a");
            assert_eq!(repo, "b/c@x");
        }
        _ => panic!("expected github package"),
    }
}

#[test]
fn registry_spec_keeps_everything_before_last_at() {
    match parse_pkg("a@b@sloxpkgs").expect("should parse") {
        Pkg::Regit { pkg } => assert_eq!(pkg, "a@b"),
        _ => panic!("expected sloxpkgs package"),
    }
}

#[test]
fn package_spec_errors() {
    assert_eq!(
        parse_pkg("tool@npm").unwrap_err(),
        "unsupported package source `npm`"
    );
    assert_eq!(
        parse_pkg("tool@github").unwrap_err(),
        "github package must look like `user/repo@github`"
    );
    assert_eq!(
        parse_pkg("/repo@github").unwrap_err(),
        "github package must include both user and repo"
    );
    assert_eq!(
        parse_pkg("user/@github").unwrap_err(),
        "github package must include both user and repo"
    );
    assert_eq!(
        parse_pkg("plain").unwrap_err(),
        "package must look like `user/repo@github`"
    );
}

#[test]
fn package_names() {
    let pkg = parse_pkg("devwon/slox@github").unwrap();
    assert_eq!(package_name(&pkg), "slox");
    assert_eq!(package_name_from_remove_arg("demo").unwrap(), "demo");
    assert_eq!(package_name_from_remove_arg("devwon/slox@github").unwrap(), "slox");
    assert_eq!(package_name_from_remove_arg("plur@sloxpkgs").unwrap(), "plur");
    assert_eq!(
        package_name_from_remove_arg("x@pip").unwrap_err(),
        "unsupported package source `pip`"
    );
}

#[test]
fn shim_runs_its_target() {
    let shim = Shim::new("/opt/tools/bin/demo");
    assert_eq!(
        shim.generate(),
        "#!/bin/sh\nexec \"/opt/tools/bin/demo\" \"$@\""
    );
}

#[test]
fn quoting_for_shells() {
    assert_eq!(shell_single_quote("/tmp/a b"), "'/tmp/a b'");
    assert_eq!(shell_single_quote("it's"), "'it'\"'\"'s'");
    assert_eq!(nu_double_quote("/tmp/x"), "\"/tmp/x\"");
    assert_eq!(nu_double_quote("a\"b\\c"), "\"a\\\"b\\\\c\"");
}

#[test]
fn nu_activation_script() {
    let store = StorePaths::new("/tmp/slox-store");
    let script = slox::activate::activation_script(&store, ActivateCommand::Nu).unwrap();
    let expected = [
        "let slox_store = \"/tmp/slox-store\"\n",
        "let slox_bin = \"/tmp/slox-store/bin\"\n",
        "let slox_path_entries = (if (($env.PATH | describe) | str starts-with \"list\") {\n",
        "  $env.PATH\n",
        "} else {\n",
        "  $env.PATH | split row (char esep)\n",
        "})\n",
        "$env.PATH = (\n",
        "  $slox_path_entries\n",
        "  | each {|entry| $entry | into string }\n",
        "  | where {|entry|\n",
        "      ($entry != $\"($slox_store)/bin\")\n",
        "      and ($entry != $\"($slox_store)/bin/\")\n",
        "    }\n",
        "  | prepend $slox_bin\n",
        ")",
    ]
    .concat();
    assert_eq!(script, expected);
}

#[test]
fn direct_activation_lines() {
    assert_eq!(
        direct_activation_line("/s/root/bin", ActivateCommand::Sh),
        "export PATH=\"$PATH:/s/root/bin/\""
    );
    assert_eq!(
        direct_activation_line("/s/root/bin/", ActivateCommand::Zsh),
        "export PATH=\"$PATH:/s/root/bin/\""
    );
    assert_eq!(
        direct_activation_line("/s/env/a/bin", ActivateCommand::Nu),
        "$env.PATH = ($env.PATH | split row (char esep) | append \"/s/env/a/bin/\")"
    );
}

#[test]
fn terminal_lines() {
    assert_eq!(
        rainbow_prefix(),
        "\x1b[38;5;197mS\x1b[38;5;214mL\x1b[38;5;226mO\x1b[38;5;45mX\x1b[0m"
    );
    assert_eq!(
        status_line("ERR", "\x1b[38;5;196m", "boom"),
        "\x1b[38;5;196mERR  \x1b[0m boom"
    );
    assert_eq!(
        status_line("BUILD", "\x1b[38;5;141m", "x"),
        "\x1b[38;5;141mBUILD\x1b[0m x"
    );
    assert_eq!(
        sparkle_line("done"),
        format!("{} \x1b[38;5;82mdone\x1b[0m", rainbow_prefix())
    );
    assert_eq!(slox::report_error("boom"), "\x1b[38;5;196mERR  \x1b[0m boom");
    assert_eq!(slox::managed::report_error("boom"), "error boom");
}

#[test]
fn reports() {
    let report = Report::new("added env `demo`".to_string())
        .detail("path: /s/env/demo".to_string())
        .detail("bin: /s/env/demo/bin".to_string());
    assert_eq!(report.summary, "added env `demo`");
    assert_eq!(report.details.len(), 2);
    assert_eq!(
        report_lines(&report, "12ms"),
        vec![
            "added env `demo` in 12ms".to_string(),
            "- path: /s/env/demo".to_string(),
            "- bin: /s/env/demo/bin".to_string(),
        ]
    );
}

#[test]
fn active_environment_record() {
    assert_eq!(active_env_file_text("demo"), "demo\n");
    assert_eq!(
        active_env_name_in(&active_env_file_text("demo")),
        Some("demo".to_string())
    );
    assert_eq!(active_env_name_in("  demo \r\n"), Some("demo".to_string()));
    assert_eq!(active_env_name_in(" \n"), None);
    assert_eq!(active_env_name_in(""), None);
}

#[test]
fn build_reports() {
    assert_eq!(build_script_path("/r", &default_config()), "/r/build");
    assert_eq!(built_binary_path("/r", "demo", &default_config()), "/r/bin/demo");
    let custom = parse_build_config("script = \"s.sh\"\nbinary = \"out/x\"\nname = \"y\"\n").unwrap();
    assert_eq!(build_script_path("/r", &custom), "/r/s.sh");
    assert_eq!(built_binary_path("/r", "demo", &custom), "/r/out/x");
    let plan = build_plan("/r", "demo", &custom);
    assert_eq!(plan.name, "y");
    assert_eq!(plan.package, "demo");
    let plain = build_plan("/r", "demo", &default_config());
    assert_eq!(plain.name, "demo");
    assert_eq!(plain.script, "/r/build");
    assert_eq!(build_failure_details(" oops \n", "out"), "oops");
    assert_eq!(build_failure_details("\n", " out "), "out");
    assert_eq!(
        build_failure_details("", "  "),
        "build script exited with a non-zero status"
    );
}

#[test]
fn progress_labels() {
    let env = Commands::Env {
        command: EnvCommand::Add {
            path: "a".to_string(),
        },
    };
    let pkg = Commands::Pkg {
        command: PkgCommand::Remove {
            path: "a".to_string(),
        },
    };
    let activate = Commands::Activate {
        command: ActivateCommand::Sh,
    };
    assert_eq!(
        slox::managed::progress_label(&env),
        Some("updating environment".to_string())
    );
    assert_eq!(
        slox::managed::progress_label(&pkg),
        Some("processing package".to_string())
    );
    assert_eq!(slox::managed::progress_label(&activate), None);
}

#[test]
fn build_config_reading() {
    let c = parse_build_config("").unwrap();
    assert_eq!((c.script, c.binary, c.name), (None, None, None));
    let c = parse_build_config("# a comment\n\n  name   =  \"tool\"  \r\n").unwrap();
    assert_eq!(c.name.as_deref(), Some("tool"));
    assert_eq!(c.script, None);
    assert_eq!(
        parse_build_config("name\n").err(),
        Some("invalid line `name` in build.toml: expected `key = \"value\"`".to_string())
    );
    assert_eq!(
        parse_build_config("name = tool\n").err(),
        Some("value of `name` in build.toml must be a double-quoted string".to_string())
    );
    assert_eq!(
        parse_build_config("name = \"a\\\"b\"\n").err(),
        Some("value of `name` in build.toml must be a double-quoted string".to_string())
    );
    assert_eq!(
        parse_build_config("colour = \"red\"").err(),
        Some("unknown key `colour` in build.toml".to_string())
    );
    assert_eq!(
        parse_build_config("name = \"a\"\nname = \"b\"\n").err(),
        Some("duplicate key `name` in build.toml".to_string())
    );
}
