use flake_gen::comments::{comment_line, inline_comment_start, strip_comments};
use flake_gen::context::{
    find_template, has_plain_tags, present_rendered, render_flake, TemplateContext,
};
use flake_gen::dotfile::{append_contents, envrc_contents, gitignore_contents};
use flake_gen::flags::FeatureFlags;
use flake_gen::language::Language;
use flake_gen::naming::{candidate_name, first_free_name, push_decimal};
use flake_gen::pipeline::{format_outcome, plan_run, resolve_destination, Action, ScaffoldError};

const TEMPLATE: &str = "# A flake\n{\n  description = \"demo\"; # inline\n{% if package %}  packages = 1;\n{% endif %}{% if dev %}  devShells = 2;\n{% endif %}{% if docker_image %}  image = 3;\n{% endif %}{% if comments %}  # with comments\n{% endif %}}\n";

fn catalogue_for(lang: Language) -> Vec<(String, String)> {
    vec![
        ("other.template".to_string(), "unused".to_string()),
        (lang.template_name(), TEMPLATE.to_string()),
    ]
}

#[test]
fn language_names() {
    let names: Vec<String> = Language::all().iter().map(|l| l.to_string()).collect();
    assert_eq!(
        names,
        vec!["agnostic", "rust", "go", "python", "typescript", "cpp", "terraform", "elixir"]
    );
    assert_eq!(Language::Rust.template_name(), "rust.template");
    assert_eq!(Language::Cpp.name(), "cpp");
}

#[test]
fn language_from_name() {
    for l in Language::all() {
        assert_eq!(Language::from_name(&l.name()), Some(l));
    }
    assert_eq!(Language::from_name("invalid-language"), None);
    assert_eq!(Language::from_name(""), None);
    assert_eq!(Language::from_name("Rust"), None);
}

#[test]
fn no_flags_plan_writes_only_flake() {
    for _lang in Language::all() {
        let plan = plan_run(FeatureFlags::none(), false).unwrap();
        assert_eq!(plan, vec![Action::WriteFlake, Action::FormatFlake]);
    }
}

#[test]
fn plan_follows_flags() {
    for bits in 0u8..16 {
        let flags = FeatureFlags {
            comments: bits & 1 != 0,
            package: bits & 2 != 0,
            dev: bits & 4 != 0,
            git: bits & 8 != 0,
        };
        let plan = plan_run(flags, false).unwrap();
        assert_eq!(plan[0], Action::WriteFlake);
        assert_eq!(plan[1], Action::FormatFlake);
        assert_eq!(plan.contains(&Action::AppendEnvrc), flags.dev);
        assert_eq!(plan.contains(&Action::AppendGitIgnore), flags.git);
        assert_eq!(plan.len(), 2 + flags.dev as usize + flags.git as usize);
    }
    let all = plan_run(FeatureFlags::all(), false).unwrap();
    assert_eq!(
        all,
        vec![Action::WriteFlake, Action::FormatFlake, Action::AppendEnvrc, Action::AppendGitIgnore]
    );
}

#[test]
fn existing_flake_is_a_conflict() {
    assert_eq!(plan_run(FeatureFlags::none(), true), Err(ScaffoldError::NixFileAlreadyExists));
    assert_eq!(plan_run(FeatureFlags::all(), true), Err(ScaffoldError::NixFileAlreadyExists));
}

#[test]
fn formatter_outcomes_are_distinct() {
    assert_eq!(format_outcome(false, false), Err(ScaffoldError::NixFmtNotFound));
    assert_eq!(format_outcome(false, true), Err(ScaffoldError::NixFmtNotFound));
    assert_eq!(format_outcome(true, false), Err(ScaffoldError::NixFmtFailed));
    assert_eq!(format_outcome(true, true), Ok(()));
    assert_ne!(format_outcome(false, true), format_outcome(true, false));
}

#[test]
fn destination_dot_is_current_dir() {
    assert_eq!(resolve_destination(None), None);
    assert_eq!(resolve_destination(Some(".")), None);
    assert_eq!(resolve_destination(Some("./x")), Some("./x".to_string()));
    assert_eq!(resolve_destination(Some("..")), Some("..".to_string()));
}

#[test]
fn append_to_missing_or_empty_is_verbatim() {
    assert_eq!(append_contents("", ".direnv/"), ".direnv/");
}

#[test]
fn append_keeps_existing_bytes() {
    let before = "target/\nresult\n";
    let after = append_contents(before, &gitignore_contents());
    assert!(after.starts_with(before));
    assert!(after.len() > before.len());
    assert_eq!(after, "target/\nresult\n# added by flake-gen\n.direnv/");
}

#[test]
fn append_closes_open_last_line() {
    assert_eq!(append_contents("target/", ".direnv/"), "target/\n# added by flake-gen\n.direnv/");
}

#[test]
fn existing_envrc_gets_delimiter_then_activation() {
    let after = append_contents("export FOO=bar\n", &envrc_contents());
    assert!(after.starts_with("export FOO=bar\n"));
    assert_eq!(after, "export FOO=bar\n# added by flake-gen\nuse flake . -Lv");
}

#[test]
fn dotfile_contents() {
    assert_eq!(envrc_contents(), "use flake . -Lv");
    assert_eq!(gitignore_contents(), ".direnv/");
}

#[test]
fn strip_drops_comment_lines_and_inline_comments() {
    let text = "# head\n{\n  a = 1; # note\n\n    # indented\n  b = \"x#y\";\n}\n";
    assert_eq!(strip_comments(text), "{\n  a = 1;\n\n  b = \"x#y\";\n}\n");
}

#[test]
fn strip_keeps_clean_text() {
    let text = "{\n  a = 1;\n\n  b = 2;\n}";
    assert_eq!(strip_comments(text), text);
    assert_eq!(strip_comments(""), "");
}

#[test]
fn stripped_has_no_comment_line() {
    let text = "#a\n  #b\nx # c\n\t# d\ny";
    let out = strip_comments(text);
    assert_eq!(out, "x\ny");
    for line in out.split('\n') {
        assert!(!line.trim_start().starts_with('#'));
        assert!(!comment_line(line));
    }
}

#[test]
fn comment_line_detection() {
    assert!(comment_line("# x"));
    assert!(comment_line(" \t# x"));
    assert!(!comment_line("x # y"));
    assert!(!comment_line(""));
    assert_eq!(inline_comment_start("x # y"), 1);
    assert_eq!(inline_comment_start("x#y"), 3);
}

#[test]
fn present_rendered_strips_only_without_comments() {
    assert_eq!(present_rendered("# c\nx\n", true), "# c\nx\n");
    assert_eq!(present_rendered("# c\nx\n", false), "x\n");
}

#[test]
fn context_mirrors_flags() {
    let flags = FeatureFlags { comments: true, package: true, dev: false, git: true };
    let ctx = TemplateContext::for_flags(flags);
    let got: Vec<(String, bool)> =
        (0..ctx.len()).map(|i| (ctx.name_at(i).to_string(), ctx.value_at(i))).collect();
    assert_eq!(
        got,
        vec![
            ("dev".to_string(), false),
            ("package".to_string(), true),
            ("comments".to_string(), true),
            ("docker_image".to_string(), true),
        ]
    );
}

#[test]
fn rust_all_flags_renders_every_block() {
    let catalogue = catalogue_for(Language::Rust);
    let flake = render_flake(&catalogue, Language::Rust, FeatureFlags::all()).unwrap();
    assert_eq!(
        flake,
        "# A flake\n{\n  description = \"demo\"; # inline\n  packages = 1;\n  devShells = 2;\n  image = 3;\n  # with comments\n}\n"
    );
    assert_eq!(append_contents("", &envrc_contents()), "use flake . -Lv");
    assert_eq!(append_contents("", &gitignore_contents()), ".direnv/");
}

#[test]
fn no_flags_renders_stripped_minimal_flake() {
    for lang in Language::all() {
        let catalogue = catalogue_for(lang);
        let flake = render_flake(&catalogue, lang, FeatureFlags::none()).unwrap();
        assert_eq!(flake, "{\n  description = \"demo\";\n}\n");
    }
}

#[test]
fn missing_template_is_resolution_error() {
    let catalogue = catalogue_for(Language::Rust);
    assert_eq!(
        render_flake(&catalogue, Language::Go, FeatureFlags::none()),
        Err(ScaffoldError::TemplateResolution)
    );
}

#[test]
fn candidate_names() {
    assert_eq!(candidate_name("flake", "nix", 0), "flake.nix");
    assert_eq!(candidate_name("flake", "nix", 1), "flake_1.nix");
    assert_eq!(candidate_name("flake", "nix", 120), "flake_120.nix");
    let mut s = String::new();
    push_decimal(&mut s, 18446744073709551615);
    assert_eq!(s, "18446744073709551615");
}

#[test]
fn first_free_skips_taken_names() {
    let none: Vec<String> = vec![];
    assert_eq!(first_free_name("flake", "nix", &none), Some(("flake.nix".to_string(), 0)));
    let taken = vec!["flake.nix".to_string(), "flake_1.nix".to_string(), "flake_3.nix".to_string()];
    assert_eq!(first_free_name("flake", "nix", &taken), Some(("flake_2.nix".to_string(), 2)));
}

#[test]
fn strip_drops_lines_indented_with_any_whitespace() {
    let text = "\u{c}# a\n\u{b}# b\n\u{a0}\u{3000}# c\nkeep\n";
    assert_eq!(strip_comments(text), "keep\n");
    assert!(comment_line("\u{2003}# x"));
}

#[test]
fn plain_tag_detection() {
    assert!(has_plain_tags(TEMPLATE));
    assert!(has_plain_tags("no tags { at } all # x"));
    assert!(has_plain_tags("{%- if dev -%}x{%- endif -%}"));
    assert!(!has_plain_tags("{{ 1.0 }}"));
    assert!(!has_plain_tags("{{ dev | upper }}"));
    assert!(!has_plain_tags("{{ get_env(name=x) }}"));
    assert!(!has_plain_tags("{% include \"x\" %}"));
    assert!(!has_plain_tags("{{ loop.index }}"));
}

#[test]
fn template_with_numbers_in_tags_is_refused() {
    let big = format!("{{{{ {}.0 }}}}", "9".repeat(309));
    let catalogue = vec![("rust.template".to_string(), big)];
    assert_eq!(
        render_flake(&catalogue, Language::Rust, FeatureFlags::none()),
        Err(ScaffoldError::TemplateResolution)
    );
}

#[test]
fn engine_error_is_resolution_error() {
    let catalogue = vec![("go.template".to_string(), "{% if dev %}unclosed".to_string())];
    assert_eq!(
        render_flake(&catalogue, Language::Go, FeatureFlags::none()),
        Err(ScaffoldError::TemplateResolution)
    );
}

#[test]
fn find_template_takes_first_of_name() {
    let catalogue = vec![
        ("a.template".to_string(), "one".to_string()),
        ("b.template".to_string(), "two".to_string()),
        ("a.template".to_string(), "three".to_string()),
    ];
    assert_eq!(find_template(&catalogue, "a.template"), Some("one".to_string()));
    assert_eq!(find_template(&catalogue, "b.template"), Some("two".to_string()));
    assert_eq!(find_template(&catalogue, "c.template"), None);
}
