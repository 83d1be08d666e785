use slox::cli::{ActivateCommand, Commands};
use slox::paths::StorePaths;
use slox::pkg::{parse_pkg, Pkg};
use slox::protocol::{Action, Event, Outcome};

fn check_github(spec: &str) {
    let pkg = parse_pkg(spec).expect("github package should parse");
    match pkg {
        Pkg::GitHub { user, repo } => {
            assert_eq!(user, "devwon");
            assert_eq!(repo, "slox");
        }
        Pkg::Regit { .. } => panic!("expected github package"),
    }
}

fn check_registry(spec: &str) {
    let pkg = parse_pkg(spec).expect("sloxpkgs package should parse");
    match pkg {
        Pkg::Regit { pkg } => assert_eq!(pkg, "plur"),
        Pkg::GitHub { .. } => panic!("expected sloxpkgs package"),
    }
}

#[test]
fn parse_github_package() {
    check_github("devwon/slox@github");
}

#[test]
fn lib_parse_github_package() {
    check_github("devwon/slox@github");
}

#[test]
fn parse_regit_package() {
    check_registry("plur@sloxpkgs");
}

#[test]
fn lib_parse_regit_package() {
    check_registry("plur@sloxpkgs");
}

#[test]
fn reject_invalid_package_format() {
    let error = parse_pkg("invalid-package").expect_err("package parse should fail");
    assert!(error.contains("user/repo@github"));
}

#[test]
fn lib_reject_invalid_package_format() {
    let error = parse_pkg("invalid-package").expect_err("package parse should fail");
    assert!(error.contains("user/repo@github"));
}

#[test]
fn activation_script_uses_root_bin_path() {
    let store = StorePaths {
        base: "/tmp/slox-store".to_string(),
    };

    let script = slox::activate::activation_script(&store, ActivateCommand::Zsh)
        .expect("root activation script should render");
    assert_eq!(
        script,
        [
            "_slox_store='/tmp/slox-store'\n",
            "_slox_bin='/tmp/slox-store/bin'\n",
            "_slox_filtered_path=\n",
            "_slox_old_ifs=$IFS\n",
            "IFS=:\n",
            "for _slox_entry in $PATH; do\n",
            "  case \"$_slox_entry\" in\n",
            "    \"$_slox_store\"/bin|\"$_slox_store\"/bin/)\n",
            "      ;;\n",
            "    '')\n",
            "      ;;\n",
            "    *)\n",
            "      if [ -n \"$_slox_filtered_path\" ]; then\n",
            "        _slox_filtered_path=\"$_slox_filtered_path:$_slox_entry\"\n",
            "      else\n",
            "        _slox_filtered_path=\"$_slox_entry\"\n",
            "      fi\n",
            "      ;;\n",
            "  esac\n",
            "done\n",
            "IFS=$_slox_old_ifs\n",
            "if [ -n \"$_slox_filtered_path\" ]; then\n",
            "  export PATH=\"$_slox_bin:$_slox_filtered_path\"\n",
            "else\n",
            "  export PATH=\"$_slox_bin\"\n",
            "fi\n",
            "unset _slox_store _slox_bin _slox_filtered_path _slox_old_ifs _slox_entry",
        ]
        .concat()
    );
}

#[test]
fn lib_activation_script_uses_root_bin_path() {
    let store = StorePaths {
        base: "/tmp/slox-store".to_string(),
    };
    let (session, directive) = slox::run(
        Commands::Activate {
            command: ActivateCommand::Zsh,
        },
        store,
    );
    match &directive.action {
        Action::Exists { path } => assert_eq!(path, "/tmp/slox-store/active-env"),
        _ => panic!("the active environment should be looked up first"),
    }
    // The store holds no active-environment file.
    let (_, directive) = session.step(Event::Answer { yes: false });
    let script = match directive.action {
        Action::Finish {
            result: Ok(Outcome::Script { text }),
        } => text,
        _ => panic!("root activation script should render"),
    };
    assert_eq!(script, r#"export PATH="$PATH:/tmp/slox-store/root/bin/""#);
}
