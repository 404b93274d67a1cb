use package_info::expand::{expand_package_info, expand_to_source, parse_declaration};
use package_info::generate::{escape_literal, generate_impl_source, TypeDeclaration};
use package_info::metadata::{env_value_or_empty, EnvValues, PackageMetadata};
use package_info::vars;

fn empty_env() -> EnvValues {
    EnvValues {
        authors: None,
        description: None,
        homepage: None,
        license: None,
        license_file: None,
        name: None,
        repository: None,
        version: None,
        version_major: None,
        version_minor: None,
        version_patch: None,
        version_pre: None,
    }
}

fn test_env() -> EnvValues {
    EnvValues {
        name: Some(String::from("package_info")),
        version: Some(String::from("1.2.3")),
        version_major: Some(String::from("1")),
        version_minor: Some(String::from("2")),
        version_patch: Some(String::from("3")),
        ..empty_env()
    }
}

#[test]
fn it_returns_populated_info_field() {
    let info = PackageMetadata::from_env(test_env());
    assert_eq!(info.name(), Some(String::from("package_info")));
}

#[test]
fn is_none_for_unpopulated_info_field() {
    let info = PackageMetadata::from_env(test_env());
    assert_eq!(info.homepage(), None);
}

#[test]
fn version_components_are_reported_exactly() {
    let info = PackageMetadata::from_env(test_env());
    assert_eq!(info.version(), Some(String::from("1.2.3")));
    assert_eq!(info.version_major(), Some(String::from("1")));
    assert_eq!(info.version_minor(), Some(String::from("2")));
    assert_eq!(info.version_patch(), Some(String::from("3")));
    assert_eq!(info.version_pre(), None);
}

#[test]
fn explicitly_empty_reads_as_unset() {
    let mut env = test_env();
    env.license = Some(String::new());
    let info = PackageMetadata::from_env(env);
    assert_eq!(info.license(), None);
}

#[test]
fn values_are_not_trimmed_or_transformed() {
    let mut env = empty_env();
    env.description = Some(String::from("  spaced  text  "));
    let info = PackageMetadata::from_env(env);
    assert_eq!(info.description(), Some(String::from("  spaced  text  ")));
}

#[test]
fn unset_variable_coerces_to_empty() {
    assert_eq!(env_value_or_empty(None), String::new());
    assert_eq!(env_value_or_empty(Some(String::from("x"))), String::from("x"));
}

#[test]
fn variable_names_match_cargo_exports() {
    assert_eq!(vars::AUTHORS, "CARGO_PKG_AUTHORS");
    assert_eq!(vars::DESCRIPTION, "CARGO_PKG_DESCRIPTION");
    assert_eq!(vars::HOMEPAGE, "CARGO_PKG_HOMEPAGE");
    assert_eq!(vars::LICENSE, "CARGO_PKG_LICENSE");
    assert_eq!(vars::LICENSE_FILE, "CARGO_PKG_LICENSE_FILE");
    assert_eq!(vars::NAME, "CARGO_PKG_NAME");
    assert_eq!(vars::REPOSITORY, "CARGO_PKG_REPOSITORY");
    assert_eq!(vars::VERSION, "CARGO_PKG_VERSION");
    assert_eq!(vars::VERSION_MAJOR, "CARGO_PKG_VERSION_MAJOR");
    assert_eq!(vars::VERSION_MINOR, "CARGO_PKG_VERSION_MINOR");
    assert_eq!(vars::VERSION_PATCH, "CARGO_PKG_VERSION_PATCH");
    assert_eq!(vars::VERSION_PRE, "CARGO_PKG_VERSION_PRE");
}

#[test]
fn escaping_protects_quotes_and_backslashes() {
    assert_eq!(escape_literal("plain"), "plain");
    assert_eq!(escape_literal("a\"b"), "a\\\"b");
    assert_eq!(escape_literal("a\\b"), "a\\\\b");
    assert_eq!(escape_literal("a\nb\tc\rd"), "a\\nb\\tc\\rd");
    assert_eq!(escape_literal(""), "");
}

fn plain_declaration(name: &str) -> TypeDeclaration {
    TypeDeclaration {
        name: String::from(name),
        generics_decl: String::new(),
        generics_use: String::new(),
        where_clause: String::new(),
    }
}

fn expected_method(method: &str, value: &str) -> String {
    format!(
        "    fn {}() -> Option<String> {{ if \"{}\".is_empty() {{ None }} else {{ Some(\"{}\".to_string()) }} }}\n",
        method, value, value
    )
}

#[test]
fn generated_text_matches_the_formula_exactly() {
    let meta = PackageMetadata::from_env(test_env());
    let source = generate_impl_source(&plain_declaration("TestStruct"), &meta);
    let mut expected = String::from("impl  package_info::PackageInfo for TestStruct  {\n");
    expected.push_str(&expected_method("authors", ""));
    expected.push_str(&expected_method("description", ""));
    expected.push_str(&expected_method("homepage", ""));
    expected.push_str(&expected_method("license", ""));
    expected.push_str(&expected_method("license_file", ""));
    expected.push_str(&expected_method("name", "package_info"));
    expected.push_str(&expected_method("repository", ""));
    expected.push_str(&expected_method("version", "1.2.3"));
    expected.push_str(&expected_method("version_major", "1"));
    expected.push_str(&expected_method("version_minor", "2"));
    expected.push_str(&expected_method("version_patch", "3"));
    expected.push_str(&expected_method("version_pre", ""));
    expected.push_str("}\n");
    assert_eq!(source, expected);
}

#[test]
fn generated_literals_are_escaped() {
    let mut env = empty_env();
    env.authors = Some(String::from("a \"quoted\" name:and\\another"));
    let meta = PackageMetadata::from_env(env);
    let source = generate_impl_source(&plain_declaration("T"), &meta);
    assert!(source.contains("\"a \\\"quoted\\\" name:and\\\\another\""));
}

#[test]
fn generation_is_deterministic() {
    let meta = PackageMetadata::from_env(test_env());
    let decl = plain_declaration("TestStruct");
    let first = generate_impl_source(&decl, &meta);
    let second = generate_impl_source(&decl, &meta);
    assert_eq!(first, second);

    let input = "struct TestStruct {}";
    let once = expand_to_source(
        input.parse::<proc_macro2::TokenStream>().unwrap(),
        test_env(),
    )
    .unwrap();
    let again = expand_to_source(
        input.parse::<proc_macro2::TokenStream>().unwrap(),
        test_env(),
    )
    .unwrap();
    assert_eq!(once, again);
}

#[test]
fn parse_declaration_reads_name_and_generics() {
    let input = "struct Wrapper<T> where T: Clone { t: T }"
        .parse::<proc_macro2::TokenStream>()
        .unwrap();
    let decl = parse_declaration(input).unwrap();
    assert_eq!(decl.name, "Wrapper");
    assert_eq!(decl.generics_decl, "< T >");
    assert_eq!(decl.generics_use, "< T >");
    assert_eq!(decl.where_clause, "where T : Clone");
}

#[test]
fn parse_declaration_of_plain_struct_has_empty_generics() {
    let input = "struct TestStruct {}".parse::<proc_macro2::TokenStream>().unwrap();
    let decl = parse_declaration(input).unwrap();
    assert_eq!(decl.name, "TestStruct");
    assert_eq!(decl.generics_decl, "");
    assert_eq!(decl.generics_use, "");
    assert_eq!(decl.where_clause, "");
}

#[test]
fn generic_declaration_keeps_generics_in_the_impl_header() {
    let input = "struct Wrapper<T: Clone> { t: T }"
        .parse::<proc_macro2::TokenStream>()
        .unwrap();
    let source = expand_to_source(input, test_env()).unwrap();
    assert!(source.starts_with("impl < T : Clone > package_info::PackageInfo for Wrapper< T >"));
}

#[test]
fn expansion_emits_tokens_for_a_valid_declaration() {
    let input = "struct TestStruct {}".parse::<proc_macro2::TokenStream>().unwrap();
    let tokens = expand_package_info(input, test_env()).unwrap();
    let rendered = tokens.to_string();
    assert!(rendered.contains("package_info :: PackageInfo for TestStruct"));
    assert!(rendered.contains("\"package_info\""));
}

#[test]
fn malformed_declaration_fails_generation() {
    let input = "struct".parse::<proc_macro2::TokenStream>().unwrap();
    assert!(expand_package_info(input, test_env()).is_err());

    let input = "fn not_a_type() {}".parse::<proc_macro2::TokenStream>().unwrap();
    assert!(expand_to_source(input, test_env()).is_err());
}
