//! From the name of a configuration file to the place where it lives.

use crate::error::FondantError;
use crate::format::{lemma_extension_dispatch, Format};
use crate::path::{
    body_begin, body_start, expand_tilde_from, expansion, extension_of, file_name_of,
    has_file_name, is_file_name, is_home_shorthand, join, joined, lemma_trimmed_len_bounds,
    name_bounds, name_end, name_start, option_text, parent_of, starts_with_home, stem_of,
    trim_end, trimmed_len, with_extension, with_extension_text,
};
use crate::platform::{home_dir, project_config_dir};
use crate::text::{find_last, last_index_of, lemma_last_index_of, lemma_last_index_of_unique};
use vstd::prelude::*;
use vstd::string::*;

verus! {

/// The parts of a configuration file's name as an application declares it,
/// for instance `"~/.apprc.json"`: where it lives, what it is called and
/// which extension it carries. Each part may be left out.
#[derive(Debug)]
pub struct ConfigPath {
    /// The directory; empty where none was given.
    pub parent: String,
    /// The file's name without its extension.
    pub filename: Option<String>,
    /// The file's extension, without the dot.
    pub extension: Option<String>,
}

/// A configuration file's place: `directory/filename_stem.extension`, with
/// the extension of the format in place of any that the stem brings.
#[derive(Debug)]
pub struct ConfigLocation {
    /// The directory that holds the file, with no shorthand left in it.
    pub directory: String,
    /// The file's name as it was asked for.
    pub filename_stem: String,
    /// The format, which gives the file its extension.
    pub format: Format,
}

/// The text of an optional string slice.
pub open spec fn option_str_text(s: Option<&str>) -> Option<Seq<char>> {
    match s {
        Some(s) => Some(s@),
        None => None,
    }
}

/// The name that a configuration file gets where none was declared.
pub open spec fn default_filename() -> Seq<char> {
    "config"@
}

/// The extension that a configuration file gets where none was declared.
pub open spec fn default_extension() -> Seq<char> {
    "toml"@
}

/// The directory that holds the configuration file: the override with its
/// home shorthand expanded where one is given, else the platform's directory
/// for the application. An empty override counts as none. `home` and
/// `platform_dir` are what the system answered, `None` where it had no
/// answer; `None` comes back where the answer that is needed is missing.
pub open spec fn directory_of(
    base_dir_override: Option<Seq<char>>,
    home: Option<Seq<char>>,
    platform_dir: Option<Seq<char>>,
) -> Option<Seq<char>> {
    if overrides(base_dir_override) {
        expansion(base_dir_override->Some_0, home)
    } else {
        platform_dir
    }
}

/// Whether a directory was given in place of the platform's.
pub open spec fn overrides(base_dir_override: Option<Seq<char>>) -> bool {
    base_dir_override matches Some(dir) && dir.len() > 0
}

impl ConfigPath {
    /// The directory override that this name carries, if it carries one.
    pub open spec fn base_dir_text(self) -> Option<Seq<char>> {
        if self.parent@.len() > 0 {
            Some(self.parent@)
        } else {
            None
        }
    }

    /// The declared file name, or the default.
    pub open spec fn file_stem_text(self) -> Seq<char> {
        match self.filename {
            Some(name) => name@,
            None => default_filename(),
        }
    }

    /// The declared extension, or the default.
    pub open spec fn extension_text(self) -> Seq<char> {
        match self.extension {
            Some(ext) => ext@,
            None => default_extension(),
        }
    }

    /// Splits a declared file name into directory, name and extension. The
    /// name is the last component, and separators and `.` components at the
    /// end do not count: `a/b.toml/` splits as `a/b.toml` does. A declared
    /// name that ends in `..`, or has no component, names no file.
    pub fn parse(config_file: &str) -> (parts: ConfigPath)
        ensures
            parts.parent@ == parent_of(config_file@),
            option_text(parts.filename) == stem_of(file_name_of(config_file@)),
            option_text(parts.extension) == extension_of(file_name_of(config_file@)),
    {
        let start: usize = body_begin(config_file);
        let (from, to): (usize, usize) = name_bounds(config_file);
        let parent: String = if to <= start {
            String::new()
        } else if from > start {
            let cut: usize = trim_end(config_file, from - 1);
            String::from_str(config_file.substring_char(0, cut))
        } else {
            String::from_str(config_file.substring_char(0, from))
        };
        if !is_file_name(config_file, from, to) {
            return ConfigPath { parent, filename: None, extension: None };
        }
        let name = config_file.substring_char(from, to);
        let len: usize = to - from;
        let dot: usize = match find_last(name, '.') {
            Some(dot) => dot,
            None => 0,
        };
        if dot > 0 {
            ConfigPath {
                parent,
                filename: Some(String::from_str(name.substring_char(0, dot))),
                extension: Some(String::from_str(name.substring_char(dot + 1, len))),
            }
        } else {
            ConfigPath { parent, filename: Some(String::from_str(name)), extension: None }
        }
    }

    /// The directory override, if the declared name carries one.
    pub fn base_dir(&self) -> (dir: Option<&str>)
        ensures
            option_str_text(dir) == self.base_dir_text(),
    {
        if self.parent.as_str().unicode_len() > 0 {
            Some(self.parent.as_str())
        } else {
            None
        }
    }

    /// The declared file name, `config` where none was declared.
    pub fn file_stem(&self) -> (stem: String)
        ensures
            stem@ == self.file_stem_text(),
    {
        match &self.filename {
            Some(name) => name.clone(),
            None => String::from_str("config"),
        }
    }

    /// The format that the declared extension selects, toml where none was
    /// declared; `None` where the extension names no supported format.
    pub fn format(&self) -> (format: Option<Format>)
        ensures
            format == Format::of_extension(self.extension_text()),
    {
        match &self.extension {
            Some(ext) => Format::from_extension(ext.as_str()),
            None => Format::from_extension("toml"),
        }
    }
}

impl Default for ConfigPath {
    /// The name of an application that declared nothing.
    fn default() -> (parts: ConfigPath)
        ensures
            parts.parent@.len() == 0,
            parts.filename is None,
            parts.extension is None,
    {
        ConfigPath { parent: String::new(), filename: None, extension: None }
    }
}

impl ConfigLocation {
    /// The file's name: the stem with the format's extension.
    pub open spec fn file_name_text(self) -> Seq<char> {
        with_extension_text(self.filename_stem@, self.format)
    }

    /// The file's path: its name placed in the directory.
    pub open spec fn path_text(self) -> Seq<char> {
        joined(self.directory@, self.file_name_text())
    }

    /// The file's name.
    pub fn file_name(&self) -> (name: String)
        ensures
            name@ == self.file_name_text(),
    {
        with_extension(self.filename_stem.as_str(), self.format)
    }

    /// The file's path.
    pub fn path(&self) -> (path: String)
        ensures
            path@ == self.path_text(),
    {
        let name = self.file_name();
        join(self.directory.as_str(), name.as_str())
    }
}

/// Whether resolving with this override has to ask for the home directory.
pub fn needs_home(base_dir_override: Option<&str>) -> (needed: bool)
    ensures
        needed == (overrides(option_str_text(base_dir_override)) && is_home_shorthand(
            base_dir_override->Some_0@,
        )),
{
    match base_dir_override {
        Some(dir) => starts_with_home(dir),
        None => false,
    }
}

/// Whether resolving with this override has to ask for the platform's
/// directory.
pub fn needs_platform_dir(base_dir_override: Option<&str>) -> (needed: bool)
    ensures
        needed == !overrides(option_str_text(base_dir_override)),
{
    match base_dir_override {
        Some(dir) => dir.unicode_len() == 0,
        None => true,
    }
}

/// Resolves the place of a configuration file from what the system answered:
/// `home` is the outcome of the home directory lookup and `platform_dir` that
/// of the lookup of the application's configuration directory. Fails with
/// `InvalidHomeDir` exactly when the answer that the override calls for is
/// missing.
pub fn resolve_from(
    base_dir_override: Option<&str>,
    filename_stem: &str,
    format: Format,
    home: Option<String>,
    platform_dir: Option<String>,
) -> (place: Result<ConfigLocation, FondantError>)
    ensures
        match directory_of(
            option_str_text(base_dir_override),
            option_text(home),
            option_text(platform_dir),
        ) {
            Some(directory) => place matches Ok(location) && location.directory@ == directory
                && location.filename_stem@ == filename_stem@ && location.format == format,
            None => place matches Err(e) && e == FondantError::InvalidHomeDir,
        },
{
    let directory = if needs_platform_dir(base_dir_override) {
        match platform_dir {
            Some(dir) => dir,
            None => {
                return Err(FondantError::InvalidHomeDir);
            },
        }
    } else {
        match expand_tilde_from(base_dir_override.unwrap(), home) {
            Ok(dir) => dir,
            Err(e) => {
                return Err(e);
            },
        }
    };
    Ok(ConfigLocation { directory, filename_stem: String::from_str(filename_stem), format })
}

/// Resolves the place of the configuration file of `application`: in
/// `base_dir_override` where one is given, a leading home shorthand expanded,
/// else in the platform's configuration directory for the application.
///
/// With an override that has no home shorthand the system is not asked and
/// the result is fixed. Otherwise the directory is the one that
/// `directory_of` gives for some answer of the system, and the call fails
/// with `InvalidHomeDir` when the system has none. The platform's directory
/// is never the empty path.
pub fn resolve(
    base_dir_override: Option<&str>,
    filename_stem: &str,
    format: Format,
    application: &str,
) -> (place: Result<ConfigLocation, FondantError>)
    ensures
        place matches Ok(location) ==> location.filename_stem@ == filename_stem@ && location.format
            == format && exists|home: Option<Seq<char>>, platform_dir: Option<Seq<char>>|
            Some(location.directory@) == #[trigger] directory_of(
                option_str_text(base_dir_override),
                home,
                platform_dir,
            ),
        place matches Err(e) ==> e == FondantError::InvalidHomeDir,
        overrides(option_str_text(base_dir_override)) && !is_home_shorthand(
            base_dir_override->Some_0@,
        ) ==> (place matches Ok(location) && location.directory@ == base_dir_override->Some_0@),
        !overrides(option_str_text(base_dir_override)) ==> (place matches Ok(location)
            ==> location.directory@.len() > 0),
{
    let home = if needs_home(base_dir_override) {
        home_dir()
    } else {
        None
    };
    let platform_dir = if needs_platform_dir(base_dir_override) {
        project_config_dir("rs", "", application)
    } else {
        None
    };
    let ghost home_text = option_text(home);
    let ghost platform_text = option_text(platform_dir);
    let place = resolve_from(base_dir_override, filename_stem, format, home, platform_dir);
    proof {
        if place is Ok {
            assert(Some(place->Ok_0.directory@) == directory_of(
                option_str_text(base_dir_override),
                home_text,
                platform_text,
            ));
        }
    }
    place
}

/// Whether `stem` is a plain file name: not empty, not `.`, without a
/// separator, and without a dot except one that it begins with.
pub open spec fn is_plain_stem(stem: Seq<char>) -> bool {
    &&& stem.len() > 0
    &&& stem != seq!['.']
    &&& forall|j: int| 0 <= j < stem.len() ==> stem[j] != '/'
    &&& forall|j: int| 0 < j < stem.len() ==> stem[j] != '.'
}

/// Whether `dir` names a directory with nothing at its end that does not
/// count: no separator and no `.` component.
pub open spec fn is_plain_directory(dir: Seq<char>) -> bool {
    dir.len() > 0 && dir.last() != '/' && trimmed_len(dir, dir.len() as int) == dir.len()
}

/// A plain stem is its own file name and has no extension.
proof fn lemma_plain_stem(stem: Seq<char>)
    requires
        is_plain_stem(stem),
    ensures
        body_start(stem) == 0,
        name_start(stem) == 0,
        name_end(stem) == stem.len(),
        has_file_name(stem),
        file_name_of(stem) == stem,
        last_index_of(stem, '.') <= 0,
{
    if stem[0] == '.' && stem.len() == 1 {
        assert(stem =~= seq!['.']);
    }
    assert(body_start(stem) == 0);
    assert(trimmed_len(stem, stem.len() as int) == stem.len());
    assert(stem.subrange(0, stem.len() as int) =~= stem);
    lemma_last_index_of_unique(stem, '/', -1);
    lemma_last_index_of(stem, '.');
    if stem == seq!['.', '.'] {
        assert(stem[1] == '.');
    }
}

/// A plain file name in a plain directory lies at
/// `directory/filename_stem.extension`.
pub proof fn lemma_location_layout(location: ConfigLocation)
    requires
        is_plain_directory(location.directory@),
        is_plain_stem(location.filename_stem@),
    ensures
        location.file_name_text() == location.filename_stem@ + "."@
            + location.format.extension_text(),
        location.path_text() == location.directory@ + "/"@ + location.filename_stem@ + "."@
            + location.format.extension_text(),
{
    let stem = location.filename_stem@;
    let ext = location.format.extension_text();
    reveal_strlit(".");
    reveal_strlit("/");
    assert("."@ =~= seq!['.']);
    assert("/"@ =~= seq!['/']);
    lemma_plain_stem(stem);
    assert(stem.take(stem.len() as int) =~= stem);
    assert(location.file_name_text() =~= stem + "."@ + ext);
    assert(location.path_text() =~= location.directory@ + "/"@ + stem + "."@ + ext);
}

/// What `path` puts together, `parse` takes apart: the path of a plain file
/// name in a plain directory splits into that directory, that name and the
/// format's extension, which selects the format again.
pub proof fn lemma_path_parses_back(location: ConfigLocation)
    requires
        is_plain_directory(location.directory@),
        is_plain_stem(location.filename_stem@),
    ensures
        parent_of(location.path_text()) == location.directory@,
        stem_of(file_name_of(location.path_text())) == Some(location.filename_stem@),
        extension_of(file_name_of(location.path_text())) == Some(
            location.format.extension_text(),
        ),
        Format::of_extension(extension_of(file_name_of(location.path_text()))->Some_0) == Some(
            location.format,
        ),
{
    let dir = location.directory@;
    let stem = location.filename_stem@;
    let ext = location.format.extension_text();
    let name = stem + seq!['.'] + ext;
    let path = dir + seq!['/'] + name;
    let start = body_start(path);
    lemma_location_layout(location);
    lemma_extension_dispatch();
    reveal_strlit(".");
    reveal_strlit("/");
    reveal_strlit("toml");
    reveal_strlit("yaml");
    reveal_strlit("json");
    assert("."@ =~= seq!['.']);
    assert("/"@ =~= seq!['/']);
    assert(location.path_text() =~= path);
    assert(ext.len() >= 4);
    assert(forall|j: int| 0 <= j < ext.len() ==> ext[j] != '/' && ext[j] != '.');
    // The path begins as the directory does, and nothing at its end is dropped.
    assert(path[0] == dir[0]);
    assert(path.len() > 1 && (dir.len() > 1 ==> path[1] == dir[1]));
    assert(dir.len() == 1 ==> path[1] == '/');
    assert(start == body_start(dir));
    assert(path[path.len() - 1] == ext[ext.len() - 1]);
    assert(name_end(path) == path.len());
    // The last separator is the one behind the directory.
    let body = path.subrange(start, path.len() as int);
    assert(body[dir.len() - start] == path[dir.len() as int]);
    assert forall|j: int| dir.len() - start < j < body.len() implies body[j] != '/' by {
        assert(body[j] == name[j + start - dir.len() - 1]);
    }
    lemma_last_index_of_unique(body, '/', dir.len() - start);
    assert(name_start(path) == dir.len() + 1);
    assert(path.subrange(dir.len() as int + 1, path.len() as int) =~= name);
    assert(name[stem.len() as int] == '.');
    if name == seq!['.', '.'] {
        assert(name.len() == 2);
    }
    assert(file_name_of(path) == name);
    // What is left without the name is the directory as it is.
    lemma_trimmed_len_bounds(dir, dir.len() as int);
    assert(trimmed_len(path, dir.len() as int) == dir.len()) by {
        if dir.len() > start {
            assert(path[dir.len() - 1] == dir[dir.len() - 1]);
            if dir.len() - 1 > start {
                assert(path[dir.len() - 2] == dir[dir.len() - 2]);
                lemma_trimmed_len_bounds(dir, dir.len() - 2);
            }
            lemma_trimmed_len_bounds(dir, dir.len() - 1);
        }
    }
    assert(path.take(dir.len() as int) =~= dir);
    lemma_last_index_of_unique(name, '.', stem.len() as int);
    assert(name.take(stem.len() as int) =~= stem);
    assert(name.skip(stem.len() as int + 1) =~= ext);
}

} // verus!
