//! The serialization formats and how a file extension selects one.

use crate::text::same_text;
use vstd::prelude::*;
use vstd::string::*;

verus! {

/// A supported on-disk format.
#[derive(Clone, Copy, Debug, PartialEq, Eq, Structural)]
pub enum Format {
    Toml,
    Yaml,
    Json,
}

/// How a format's encoder lays out its text.
#[derive(Clone, Copy, Debug, PartialEq, Eq, Structural)]
pub enum Style {
    /// Indented for editing by hand.
    Pretty,
    /// The encoder's only layout.
    Plain,
}

impl Format {
    /// The format that an extension selects, if it selects one. Yaml has two
    /// extensions in use, `yaml` and `yml`; both select it.
    pub open spec fn of_extension(ext: Seq<char>) -> Option<Format> {
        if ext == "toml"@ {
            Some(Format::Toml)
        } else if ext == "yaml"@ || ext == "yml"@ {
            Some(Format::Yaml)
        } else if ext == "json"@ {
            Some(Format::Json)
        } else {
            None
        }
    }

    /// The extension that files of this format carry. A yaml file carries
    /// `yaml`, also where `yml` selected the format.
    pub open spec fn extension_text(self) -> Seq<char> {
        match self {
            Format::Toml => "toml"@,
            Format::Yaml => "yaml"@,
            Format::Json => "json"@,
        }
    }

    /// Toml and json are written pretty; the yaml encoder has one layout.
    pub open spec fn style_of(self) -> Style {
        match self {
            Format::Toml => Style::Pretty,
            Format::Yaml => Style::Plain,
            Format::Json => Style::Pretty,
        }
    }

    /// Selects the format for a file extension; `None` for an extension that
    /// names no supported format.
    pub fn from_extension(ext: &str) -> (format: Option<Format>)
        ensures
            format == Format::of_extension(ext@),
    {
        if same_text(ext, "toml") {
            Some(Format::Toml)
        } else if same_text(ext, "yaml") || same_text(ext, "yml") {
            Some(Format::Yaml)
        } else if same_text(ext, "json") {
            Some(Format::Json)
        } else {
            None
        }
    }

    /// The extension that files of this format carry.
    pub fn extension(&self) -> (ext: &'static str)
        ensures
            ext@ == self.extension_text(),
    {
        match self {
            Format::Toml => "toml",
            Format::Yaml => "yaml",
            Format::Json => "json",
        }
    }

    /// The layout in which this format's encoder is asked to write.
    pub fn style(&self) -> (style: Style)
        ensures
            style == self.style_of(),
    {
        match self {
            Format::Toml => Style::Pretty,
            Format::Yaml => Style::Plain,
            Format::Json => Style::Pretty,
        }
    }
}

/// The format and the encoder layout for a supported extension.
pub fn pick_serializer(ext: &str) -> (picked: (Format, Style))
    requires
        Format::of_extension(ext@) is Some,
    ensures
        Some(picked.0) == Format::of_extension(ext@),
        picked.1 == picked.0.style_of(),
{
    if same_text(ext, "toml") {
        (Format::Toml, Style::Pretty)
    } else if same_text(ext, "yaml") || same_text(ext, "yml") {
        (Format::Yaml, Style::Plain)
    } else {
        (Format::Json, Style::Pretty)
    }
}

/// Every format is selected by its own extension, yaml by `yml` as well, the
/// extensions of different formats differ, and nothing else selects a format.
pub proof fn lemma_extension_dispatch()
    ensures
        Format::of_extension("toml"@) == Some(Format::Toml),
        Format::of_extension("yaml"@) == Some(Format::Yaml),
        Format::of_extension("yml"@) == Some(Format::Yaml),
        Format::of_extension("json"@) == Some(Format::Json),
        forall|format: Format| Format::of_extension(format.extension_text()) == Some(format),
        forall|ext: Seq<char>|
            (#[trigger] Format::of_extension(ext)) matches Some(format) ==> ext
                == format.extension_text() || (format == Format::Yaml && ext == "yml"@),
{
    reveal_strlit("toml");
    reveal_strlit("yaml");
    reveal_strlit("yml");
    reveal_strlit("json");
    assert("toml"@[0] != "yaml"@[0]);
    assert("toml"@[0] != "json"@[0]);
    assert("yaml"@[0] != "json"@[0]);
    assert("toml"@[0] != "yml"@[0]);
    assert("json"@[0] != "yml"@[0]);
}

} // verus!
