use npm_package_json::Bug;
use npm_package_json::Error;
use npm_package_json::Json;
use npm_package_json::ManReference;
use npm_package_json::Package;
use npm_package_json::Person;
use npm_package_json::PersonReference;
use npm_package_json::Repository;
use npm_package_json::RepositoryReference;

const MINIMAL: &str = r#"{"name":"my-awesome-package","version":"1.0.0"}"#;

const DEFAULT_DOC: &str = r#"{
  "name": "my_package",
  "version": "1.0.0",
  "description": "",
  "main": "index.js",
  "scripts": {
    "test": "echo \"Error: no test specified\" && exit 1"
  },
  "repository": {
    "type": "git",
    "url": "https://github.com/<user>/my_package.git"
  },
  "keywords": [],
  "author": "",
  "license": "ISC",
  "bugs": {
    "url": "https://github.com/<user>/my_package/issues"
  },
  "homepage": "https://github.com/<user>/my_package"
}"#;

#[test]
fn test_de_minimal() {
    let package = Package::from_str(MINIMAL).unwrap();
    assert_eq!(package.name, "my-awesome-package");
    assert_eq!(package.version, "1.0.0");
}

#[test]
fn test_de_default() {
    let package = Package::from_str(DEFAULT_DOC).unwrap();
    let git_url = "https://github.com/<user>/my_package.git";

    assert_eq!(package.name, "my_package");
    assert_eq!(package.version, "1.0.0");

    assert!(package.description.unwrap().is_empty());
    assert_eq!(package.main.unwrap(), "index.js");
    assert_eq!(
        package.repository.unwrap(),
        RepositoryReference::Full(Repository {
            vcs: "git".to_string(),
            url: git_url.to_string(),
        })
    );
    assert!(package.keywords.is_empty());
    assert_eq!(package.license.unwrap(), "ISC");
    assert_eq!(
        package.bugs.unwrap(),
        Bug {
            email: None,
            url: Some("https://github.com/<user>/my_package/issues".to_string())
        }
    );
    assert_eq!(
        package.homepage.unwrap(),
        git_url.trim_end_matches(".git").to_string()
    );
}

#[test]
fn minimal_document_defaults() {
    let package = Package::from_str(MINIMAL).unwrap();
    assert_eq!(package.name, "my-awesome-package");
    assert_eq!(package.version, "1.0.0");
    assert_eq!(package.description, None);
    assert!(package.keywords.is_empty());
    assert_eq!(package.homepage, None);
    assert_eq!(package.bugs, None);
    assert_eq!(package.license, None);
    assert_eq!(package.author, None);
    assert!(package.contributors.is_empty());
    assert!(package.files.is_empty());
    assert_eq!(package.main, None);
    assert_eq!(package.browser, None);
    assert!(package.bin.is_empty());
    assert_eq!(package.man, None);
    assert_eq!(package.repository, None);
    assert!(package.scripts.is_empty());
    assert!(package.dependencies.is_empty());
    assert!(package.dev_dependencies.is_empty());
    assert!(package.peer_dependencies.is_empty());
    assert!(package.bundled_dependencies.is_empty());
    assert!(package.optional_dependencies.is_empty());
    assert!(package.engines.is_empty());
    assert!(!package.private);
    assert!(package.others.is_empty());
}

#[test]
fn defaults_on_absence() {
    let package =
        Package::from_str(r#"{"name":"a","version":"0.0.1","license":"MIT"}"#).unwrap();
    assert!(package.keywords.is_empty());
    assert!(package.dependencies.is_empty());
    assert!(!package.private);
}

#[test]
fn missing_name_fails() {
    let r = Package::from_str(r#"{"version":"1.0.0"}"#);
    assert_eq!(r, Err(Error::Parse));
}

#[test]
fn missing_version_fails() {
    let r = Package::from_str(r#"{"name":"a"}"#);
    assert_eq!(r, Err(Error::Parse));
}

#[test]
fn invalid_json_fails() {
    let r = Package::from_str("{\"name\": \"a\",");
    assert_eq!(r, Err(Error::Parse));
}

#[test]
fn non_object_fails() {
    let r = Package::from_str("[1, 2, 3]");
    assert_eq!(r, Err(Error::Parse));
}

#[test]
fn author_string_gives_short() {
    let package = Package::from_str(
        r#"{"name":"a","version":"1","author":"Jane Doe <jane@doe.dev> (https://jane.doe.dev)"}"#,
    )
    .unwrap();
    assert_eq!(
        package.author,
        Some(PersonReference::Short(
            "Jane Doe <jane@doe.dev> (https://jane.doe.dev)".to_string()
        ))
    );
}

#[test]
fn author_object_gives_full() {
    let package = Package::from_str(
        r#"{"name":"a","version":"1","author":{"name":"Jane Doe","email":"jane@doe.dev"}}"#,
    )
    .unwrap();
    assert_eq!(
        package.author,
        Some(PersonReference::Full(Person {
            name: "Jane Doe".to_string(),
            email: Some("jane@doe.dev".to_string()),
            url: None,
        }))
    );
}

#[test]
fn author_number_fails() {
    let r = Package::from_str(r#"{"name":"a","version":"1","author":7}"#);
    assert_eq!(r, Err(Error::Parse));
}

#[test]
fn man_string_gives_single() {
    let package =
        Package::from_str(r#"{"name":"a","version":"1","man":"./man/a.1"}"#).unwrap();
    assert_eq!(package.man, Some(ManReference::Single("./man/a.1".to_string())));
}

#[test]
fn man_array_gives_multiple_in_order() {
    let package = Package::from_str(
        r#"{"name":"a","version":"1","man":["./man/b.1","./man/a.1"]}"#,
    )
    .unwrap();
    assert_eq!(
        package.man,
        Some(ManReference::Multiple(vec![
            "./man/b.1".to_string(),
            "./man/a.1".to_string()
        ]))
    );
}

#[test]
fn man_array_with_non_string_fails() {
    let r = Package::from_str(r#"{"name":"a","version":"1","man":["./man/a.1",3]}"#);
    assert_eq!(r, Err(Error::Parse));
}

#[test]
fn full_document() {
    let package = Package::from_str(
        r#"{
            "name": "pkg",
            "version": "2.0.0",
            "homepage": "https://example.com/pkg",
            "repository": {"type": "git", "url": "https://example.com/pkg.git"},
            "bugs": {"url": "https://example.com/pkg/issues"}
        }"#,
    )
    .unwrap();
    assert_eq!(
        package.repository,
        Some(RepositoryReference::Full(Repository {
            vcs: "git".to_string(),
            url: "https://example.com/pkg.git".to_string(),
        }))
    );
    assert_eq!(
        package.bugs,
        Some(Bug { email: None, url: Some("https://example.com/pkg/issues".to_string()) })
    );
    assert_eq!(package.homepage, Some("https://example.com/pkg".to_string()));
}

#[test]
fn repository_number_fails() {
    let r = Package::from_str(r#"{"name":"a","version":"1","repository":14}"#);
    assert_eq!(r, Err(Error::Parse));
}

#[test]
fn repository_string_gives_short() {
    let package =
        Package::from_str(r#"{"name":"a","version":"1","repository":"github:user/pkg"}"#)
            .unwrap();
    assert_eq!(
        package.repository,
        Some(RepositoryReference::Short("github:user/pkg".to_string()))
    );
}

#[test]
fn maps_keep_entries() {
    let package = Package::from_str(
        r#"{"name":"a","version":"1","dependencies":{"left":"1.0.0","right":"2.0.0"},"scripts":{"test":"run"}}"#,
    )
    .unwrap();
    assert_eq!(
        package.dependencies,
        vec![
            ("left".to_string(), "1.0.0".to_string()),
            ("right".to_string(), "2.0.0".to_string())
        ]
    );
    assert_eq!(package.scripts, vec![("test".to_string(), "run".to_string())]);
}

#[test]
fn map_with_non_string_value_fails() {
    let r = Package::from_str(r#"{"name":"a","version":"1","dependencies":{"left":1}}"#);
    assert_eq!(r, Err(Error::Parse));
}

#[test]
fn unknown_fields_preserved() {
    let package = Package::from_str(
        r#"{"name":"a","version":"1","fancyField":{"deep":[1.50, null, "x"]},"other":true}"#,
    )
    .unwrap();
    let expected_fancy = Json::Obj(vec![(
        "deep".to_string(),
        Json::Arr(vec![
            Json::Num("1.50".to_string()),
            Json::Null,
            Json::Str("x".to_string()),
        ]),
    )]);
    assert_eq!(
        package.others,
        vec![
            ("fancyField".to_string(), expected_fancy.clone()),
            ("other".to_string(), Json::Bool(true)),
        ]
    );
    let encoded = package.to_json();
    match &encoded {
        Json::Obj(fields) => {
            let fancy = fields.iter().find(|(k, _)| k == "fancyField").unwrap();
            assert_eq!(fancy.1, expected_fancy);
            let other = fields.iter().find(|(k, _)| k == "other").unwrap();
            assert_eq!(other.1, Json::Bool(true));
        }
        _ => panic!("encode must yield an object"),
    }
}

#[test]
fn round_trip_known_fields() {
    let package = Package {
        name: "pkg".to_string(),
        version: "0.3.0".to_string(),
        description: Some("a package".to_string()),
        keywords: vec!["one".to_string(), "two".to_string()],
        homepage: Some("https://example.com".to_string()),
        bugs: Some(Bug { email: Some("bugs@example.com".to_string()), url: None }),
        license: Some("MIT".to_string()),
        author: Some(PersonReference::Full(Person {
            name: "Jane".to_string(),
            email: None,
            url: Some("https://jane.example.com".to_string()),
        })),
        contributors: vec![PersonReference::Short("Joe <joe@example.com>".to_string())],
        files: vec!["src".to_string()],
        main: Some("index.js".to_string()),
        browser: None,
        bin: vec![("pkg".to_string(), "./bin/pkg.js".to_string())],
        man: Some(ManReference::Multiple(vec!["./man/pkg.1".to_string()])),
        repository: Some(RepositoryReference::Short("github:user/pkg".to_string())),
        scripts: vec![("test".to_string(), "run-tests".to_string())],
        dependencies: vec![("dep".to_string(), "^1.0.0".to_string())],
        dev_dependencies: vec![],
        peer_dependencies: vec![],
        bundled_dependencies: vec![],
        optional_dependencies: vec![],
        engines: vec![("node".to_string(), ">=14".to_string())],
        private: true,
        others: vec![],
    };
    let encoded = package.to_json();
    let decoded = Package::from_json(&encoded).unwrap();
    assert_eq!(decoded, package);
}

#[test]
fn encode_emits_camel_case_keys() {
    let mut package = Package::default();
    package.name = "pkg".to_string();
    package.version = "1.0.0".to_string();
    package.dev_dependencies = vec![("tool".to_string(), "1".to_string())];
    let encoded = package.to_json();
    match &encoded {
        Json::Obj(fields) => {
            assert!(fields.iter().any(|(k, _)| k == "devDependencies"));
            assert!(fields.iter().any(|(k, _)| k == "peerDependencies"));
            assert!(fields.iter().any(|(k, _)| k == "bundledDependencies"));
            assert!(fields.iter().any(|(k, _)| k == "optionalDependencies"));
            assert!(!fields.iter().any(|(k, _)| k == "dev_dependencies"));
        }
        _ => panic!("encode must yield an object"),
    }
}

#[test]
fn null_optionals_decode_to_none() {
    let package = Package::from_str(
        r#"{"name":"a","version":"1","description":null,"bugs":null,"author":null,"man":null,"repository":null}"#,
    )
    .unwrap();
    assert_eq!(package.description, None);
    assert_eq!(package.bugs, None);
    assert_eq!(package.author, None);
    assert_eq!(package.man, None);
    assert_eq!(package.repository, None);
}

#[test]
fn from_slice_reads_bytes() {
    let package = Package::from_slice(MINIMAL.as_bytes()).unwrap();
    assert_eq!(package.name, "my-awesome-package");
    assert_eq!(package.version, "1.0.0");
}

#[test]
fn from_slice_rejects_invalid_utf8() {
    let r = Package::from_slice(&[0xff, 0xfe, 0x7b]);
    assert_eq!(r, Err(Error::Parse));
}

#[test]
fn error_messages() {
    assert_eq!(Error::Io.message(), "io error");
    assert_eq!(Error::Parse.message(), "failed to parse package.json file");
}

#[test]
fn default_package_is_empty() {
    let package = Package::default();
    assert_eq!(package.name, "");
    assert_eq!(package.version, "");
    assert!(package.others.is_empty());
    assert!(!package.private);
}

#[test]
fn json_clone_is_equal() {
    let j = Json::Obj(vec![
        ("a".to_string(), Json::Arr(vec![Json::Num("0".to_string()), Json::Bool(false)])),
        ("b".to_string(), Json::Str("text".to_string())),
    ]);
    assert_eq!(j.clone(), j);
}

#[test]
fn number_text_preserved_verbatim() {
    let package = Package::from_str(
        r#"{"name":"a","version":"1","big":10000000000000000000000000000,"frac":1.100}"#,
    )
    .unwrap();
    assert_eq!(
        package.others,
        vec![
            ("big".to_string(), Json::Num("10000000000000000000000000000".to_string())),
            ("frac".to_string(), Json::Num("1.100".to_string())),
        ]
    );
}

#[test]
fn default_records_are_empty() {
    let bug = Bug::default();
    assert_eq!(bug, Bug { email: None, url: None });
    let person = Person::default();
    assert_eq!(person, Person { name: String::new(), email: None, url: None });
    let repository = Repository::default();
    assert_eq!(repository, Repository { vcs: String::new(), url: String::new() });
}

#[test]
fn decode_encode_decode_is_stable() {
    let first = Package::from_str(DEFAULT_DOC).unwrap();
    let second = Package::from_json(&first.to_json()).unwrap();
    assert_eq!(second, first);
}
