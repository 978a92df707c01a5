use fondant::{pick_serializer, Format, Style};

#[test]
fn toml_extension_selects_toml() {
    assert_eq!(Format::from_extension("toml"), Some(Format::Toml));
}

#[test]
fn yaml_extension_selects_yaml() {
    assert_eq!(Format::from_extension("yaml"), Some(Format::Yaml));
}

#[test]
fn yml_extension_selects_yaml() {
    assert_eq!(Format::from_extension("yml"), Some(Format::Yaml));
    assert_eq!(pick_serializer("yml"), (Format::Yaml, Style::Plain));
}

#[test]
fn json_extension_selects_json() {
    assert_eq!(Format::from_extension("json"), Some(Format::Json));
}

#[test]
fn unknown_extensions_select_nothing() {
    assert_eq!(Format::from_extension("yam"), None);
    assert_eq!(Format::from_extension("YML"), None);
    assert_eq!(Format::from_extension("ini"), None);
    assert_eq!(Format::from_extension(""), None);
    assert_eq!(Format::from_extension("TOML"), None);
    assert_eq!(Format::from_extension(".toml"), None);
    assert_eq!(Format::from_extension("toml "), None);
    assert_eq!(Format::from_extension("tomlx"), None);
    assert_eq!(Format::from_extension("tom"), None);
}

#[test]
fn each_format_is_selected_by_its_own_extension() {
    for format in [Format::Toml, Format::Yaml, Format::Json] {
        assert_eq!(Format::from_extension(format.extension()), Some(format));
    }
}

#[test]
fn extensions_are_the_format_names() {
    assert_eq!(Format::Toml.extension(), "toml");
    assert_eq!(Format::Yaml.extension(), "yaml");
    assert_eq!(Format::Json.extension(), "json");
}

#[test]
fn toml_and_json_are_pretty_yaml_is_plain() {
    assert_eq!(Format::Toml.style(), Style::Pretty);
    assert_eq!(Format::Json.style(), Style::Pretty);
    assert_eq!(Format::Yaml.style(), Style::Plain);
}

#[test]
fn pick_serializer_toml_is_pretty() {
    assert_eq!(pick_serializer("toml"), (Format::Toml, Style::Pretty));
}

#[test]
fn pick_serializer_yaml_is_plain() {
    assert_eq!(pick_serializer("yaml"), (Format::Yaml, Style::Plain));
}

#[test]
fn pick_serializer_json_is_pretty() {
    assert_eq!(pick_serializer("json"), (Format::Json, Style::Pretty));
}
