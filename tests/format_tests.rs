use confconv::{infer_from_path, parse_name, resolve_format, Commands, Error, Format};

#[test]
fn infer_yaml_extension() {
    assert!(matches!(infer_from_path("x.yaml"), Ok(Format::Yaml)));
}

#[test]
fn infer_yml_extension() {
    assert!(matches!(infer_from_path("x.yml"), Ok(Format::Yaml)));
}

#[test]
fn infer_upper_case_json() {
    assert!(matches!(infer_from_path("x.JSON"), Ok(Format::Json)));
}

#[test]
fn infer_without_extension() {
    match infer_from_path("x") {
        Err(Error::NoExtension { path }) => assert_eq!(path, "x"),
        _ => panic!("expected NoExtension"),
    }
}

#[test]
fn infer_unknown_extension() {
    match infer_from_path("notes.txt") {
        Err(Error::NotRecognized { name }) => assert_eq!(name, "txt"),
        _ => panic!("expected NotRecognized"),
    }
}

#[test]
fn infer_uses_last_dot() {
    assert!(matches!(infer_from_path("config.backup.toml"), Ok(Format::Toml)));
    assert!(matches!(infer_from_path("dir.json/file"), Err(Error::NotRecognized { .. })));
}

#[test]
fn from_extension_cases() {
    assert_eq!(Format::from_extension("config.yaml"), Some(Format::Yaml));
    assert_eq!(Format::from_extension("a/b/Cargo.TOML"), Some(Format::Toml));
    assert_eq!(Format::from_extension("config.backup.json"), Some(Format::Json));
    assert_eq!(Format::from_extension("json"), None);
    assert_eq!(Format::from_extension("file."), None);
}

#[test]
fn from_str_cases() {
    assert_eq!(Format::from_str("yaml"), Some(Format::Yaml));
    assert_eq!(Format::from_str("YML"), Some(Format::Yaml));
    assert_eq!(Format::from_str("Json"), Some(Format::Json));
    assert_eq!(Format::from_str("tOmL"), Some(Format::Toml));
    assert_eq!(Format::from_str("xml"), None);
    assert_eq!(Format::from_str(""), None);
    assert_eq!(Format::from_str("jsonx"), None);
}

#[test]
fn parse_name_cases() {
    assert!(matches!(parse_name("TOML"), Ok(Format::Toml)));
    match parse_name("ini") {
        Err(Error::NotRecognized { name }) => assert_eq!(name, "ini"),
        _ => panic!("expected NotRecognized"),
    }
}

#[test]
fn names_and_extensions() {
    assert_eq!(Format::Json.name(), "JSON");
    assert_eq!(Format::Yaml.name(), "YAML");
    assert_eq!(Format::Toml.name(), "TOML");
    assert_eq!(Format::Json.extension(), "json");
    assert_eq!(Format::Yaml.extension(), "yaml");
    assert_eq!(Format::Toml.extension(), "toml");
}

#[test]
fn given_format_wins() {
    assert!(matches!(resolve_format(Some(Format::Toml), "a.json"), Ok(Format::Toml)));
    assert!(matches!(resolve_format(Some(Format::Yaml), "-"), Ok(Format::Yaml)));
}

#[test]
fn format_inferred_from_path() {
    assert!(matches!(resolve_format(None, "a.yml"), Ok(Format::Yaml)));
}

#[test]
fn no_format_is_unknown() {
    match resolve_format(None, "-") {
        Err(Error::UnknownFormat { path }) => assert_eq!(path, "-"),
        _ => panic!("expected UnknownFormat"),
    }
    match resolve_format(None, "settings") {
        Err(Error::UnknownFormat { path }) => assert_eq!(path, "settings"),
        _ => panic!("expected UnknownFormat"),
    }
}

#[test]
fn io_errors_are_told_apart() {
    let read = Error::FileRead { path: "a".to_string(), message: "gone".to_string() };
    let parse = Error::Parse { format: Format::Json, source: "bad".to_string() };
    assert!(read.is_io());
    assert!(!parse.is_io());
}

#[test]
fn subcommand_source_formats() {
    let c = Commands::Convert {
        input: "-".to_string(),
        output: None,
        from: Some(Format::Json),
        to: Format::Yaml,
        pretty: false,
    };
    assert!(matches!(c.source_format(), Ok(Format::Json)));
    let c = Commands::Convert { input: "-".to_string(), output: None, from: None, to: Format::Yaml, pretty: true };
    assert!(matches!(c.source_format(), Err(Error::UnknownFormat { .. })));
    let v = Commands::Validate { file: "conf.yml".to_string(), format: None };
    assert!(matches!(v.source_format(), Ok(Format::Yaml)));
    let v = Commands::Validate { file: "conf.yml".to_string(), format: Some(Format::Toml) };
    assert!(matches!(v.source_format(), Ok(Format::Toml)));
    let f = Commands::Format { file: "Cargo.toml".to_string(), indent: 2, write: false };
    assert!(matches!(f.source_format(), Ok(Format::Toml)));
    let f = Commands::Format { file: "README".to_string(), indent: 2, write: false };
    match f.source_format() {
        Err(Error::UnknownFormat { path }) => assert_eq!(path, "README"),
        _ => panic!("expected UnknownFormat"),
    }
}

#[test]
fn error_messages() {
    let e = Error::Parse { format: Format::Yaml, source: "bad indent".to_string() };
    assert_eq!(e.message(), "YAML 解析失败: bad indent");
    let e = Error::FileRead { path: "a.json".to_string(), message: "not found".to_string() };
    assert_eq!(e.message(), "无法读取文件 'a.json': not found");
    let e = Error::FileWrite { path: "b.toml".to_string(), message: "denied".to_string() };
    assert_eq!(e.message(), "无法写入文件 'b.toml': denied");
    let e = Error::UnknownFormat { path: "x".to_string() };
    assert_eq!(e.message(), "无法从文件扩展名推断格式: x\n支持的扩展名: .json, .yaml, .yml, .toml");
    let e = Error::Convert { message: "oops".to_string() };
    assert_eq!(e.message(), "转换失败: oops");
    let e = Error::Encode(confconv::EncodeError::NullValue);
    assert_eq!(e.message(), "转换失败: TOML 无法表示 null 值");
    let e = Error::Encode(confconv::EncodeError::UnsupportedRoot);
    assert_eq!(e.message(), "转换失败: TOML 文档的顶层必须是表");
    let e = Error::NotRecognized { name: "ini".to_string() };
    assert_eq!(e.message(), "无法识别的格式: ini");
    let e = Error::NoExtension { path: "conf".to_string() };
    assert_eq!(e.message(), "路径没有扩展名: conf");
}
