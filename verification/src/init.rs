//! Scaffolding: what the files of a new application hold.
//!
//! Nothing here reads or writes a file. The host says whether the target
//! directory is there and hands over the files of the template; it gets
//! back what to write. Paths are text with `/` between their parts.

use crate::text::{chars_of, ends_with, has_suffix, text_of, utf8_text};
use vstd::prelude::*;
use vstd::utf8::{decode_utf8, encode_utf8, valid_utf8};

verus! {

/// What `handlebars` makes of a template for given data, where it can make
/// something of it. The data are pairs of a name and a text.
pub uninterp spec fn handlebars_text(
    template: Seq<char>,
    data: Seq<(Seq<char>, Seq<char>)>,
) -> Option<
    Seq<char>,
>;

/// How `std` prints a path for debugging: between double quotes, with what
/// would not print as itself escaped.
pub uninterp spec fn path_debug_text(path: Seq<char>) -> Seq<char>;

/// The data of a template as pairs of characters.
pub open spec fn data_view(data: Seq<(String, String)>) -> Seq<(Seq<char>, Seq<char>)> {
    data.map_values(|pair: (String, String)| (pair.0@, pair.1@))
}

/// Calls `Handlebars::render_template` on a registry fresh from
/// `Handlebars::new`, with the data as a map from names to texts: the
/// result is the text that `handlebars_text` names, where there is one.
/// Such a registry knows the built-in helpers, escapes values for HTML and
/// is not strict.
#[verifier::external_body]
fn render_template(template: &str, data: &Vec<(String, String)>) -> (text: Option<String>)
    ensures
        text is Some == handlebars_text(template@, data_view(data@)) is Some,
        text is Some ==> text->Some_0@ == handlebars_text(template@, data_view(data@))->Some_0,
{
    let map: std::collections::BTreeMap<&str, &str> = data.iter().map(
        |pair| (pair.0.as_str(), pair.1.as_str()),
    ).collect();
    handlebars::Handlebars::new().render_template(template, &map).ok()
}

/// Formats a `std::path::Path` with `{:?}`: the result is the text that
/// `path_debug_text` names.
#[verifier::external_body]
fn path_debug(path: &str) -> (text: String)
    ensures
        text@ == path_debug_text(path@),
{
    format!("{:?}", std::path::Path::new(path))
}

/// Whether a path starts at the root.
pub open spec fn is_absolute(path: Seq<char>) -> bool {
    path.len() > 0 && path[0] == '/'
}

/// A path with another one behind it. A part that starts at the root
/// stands for itself. Else the part follows the base, with one `/` between
/// the two unless the base is empty or ends with one.
pub open spec fn joined(base: Seq<char>, part: Seq<char>) -> Seq<char> {
    if is_absolute(part) {
        part
    } else if base.len() == 0 || base.last() == '/' {
        base + part
    } else {
        base + seq!['/'] + part
    }
}

/// Where a crate of a local checkout is, seen from the directory in which
/// the manifest of the new application will stand: a checkout that is named
/// from the root is taken as it is; any other is named from one directory
/// further down, so that it is looked for one directory up.
pub open spec fn resolved(path: Seq<char>, crate_name: Seq<char>) -> Seq<char> {
    if is_absolute(path) {
        joined(path, crate_name)
    } else {
        joined(joined(".."@, path), crate_name)
    }
}

/// Whether a file of the template is a manifest under its packaging name:
/// its name ends with `.crate-manifest`, and has something before that.
pub open spec fn is_packaged_manifest(path: Seq<char>) -> bool {
    &&& has_suffix(path, ".crate-manifest"@)
    &&& path.len() > 15
    &&& path[path.len() - 16] != '/'
}

/// The path that a file of the template is written to: its own, but for a
/// packaged manifest, which is written with the extension `toml`.
pub open spec fn output_path(path: Seq<char>) -> Seq<char> {
    if is_packaged_manifest(path) {
        path.subrange(0, path.len() - 15) + ".toml"@
    } else {
        path
    }
}

/// How a dependency on a released version is written in a manifest.
pub open spec fn dependency_on_version(version: Seq<char>) -> Seq<char> {
    "{ version = \""@ + version + "\" }"@
}

/// How a dependency on a crate at a path is written in a manifest.
pub open spec fn dependency_on_path(path: Seq<char>) -> Seq<char> {
    "{  path = "@ + path_debug_text(path) + " }"@
}

/// `text`, or `fallback` where there is none.
pub open spec fn or_default(text: Option<Seq<char>>, fallback: Seq<char>) -> Seq<char> {
    match text {
        Some(chosen) => chosen,
        None => fallback,
    }
}

/// Whether a path starts at the root.
pub fn path_is_absolute(path: &str) -> (absolute: bool)
    ensures
        absolute == is_absolute(path@),
{
    let chars = chars_of(path);
    chars.len() > 0 && chars[0] == '/'
}

/// Puts `part` behind `base`.
pub fn join(base: &str, part: &str) -> (path: String)
    ensures
        path@ == joined(base@, part@),
{
    if path_is_absolute(part) {
        return part.to_owned();
    }
    let chars = chars_of(base);
    let mut path = base.to_owned();
    if chars.len() > 0 && chars[chars.len() - 1] != '/' {
        proof {
            reveal_strlit("/");
            assert("/"@ =~= seq!['/']);
        }
        path.append("/");
    }
    path.append(part);
    path
}

/// Says where a crate of a local checkout is, seen from the directory in
/// which the manifest of the new application will stand.
pub fn resolve_tauri_path(path: &str, crate_name: &str) -> (found: String)
    ensures
        found@ == resolved(path@, crate_name@),
{
    if path_is_absolute(path) {
        join(path, crate_name)
    } else {
        let up = join("..", path);
        join(up.as_str(), crate_name)
    }
}

/// Says which path a file of the template is written to.
pub fn output_path_of(path: &str) -> (target: String)
    ensures
        target@ == output_path(path@),
{
    proof {
        reveal_strlit(".crate-manifest");
    }
    let chars = chars_of(path);
    let suffix = chars_of(".crate-manifest");
    if ends_with(&chars, &suffix) && chars.len() > 15 && chars[chars.len() - 16] != '/' {
        let mut target = path.substring_char(0, chars.len() - 15).to_owned();
        target.append(".toml");
        target
    } else {
        path.to_owned()
    }
}

/// The versions of the crates that a new application depends on.
#[derive(Debug)]
pub struct VersionMetadata {
    /// The version of the library.
    pub tauri: String,
    /// The version of its build-time companion.
    pub tauri_build: String,
}

/// A file of the template.
#[derive(Debug)]
pub struct TemplateFile {
    /// Where the file stands in the template.
    pub path: String,
    /// What it holds.
    pub contents: Vec<u8>,
}

/// A file to write.
#[derive(Debug)]
pub struct OutputFile {
    /// Where to write the file, seen from the directory of the new
    /// application.
    pub path: String,
    /// What to write.
    pub contents: Vec<u8>,
}

/// Why nothing could be made of the template.
#[derive(Debug)]
pub enum InitError {
    /// The file of the template at this path is text that does not render.
    Render(String),
}

/// What scaffolding comes to.
#[derive(Debug)]
pub enum Scaffold {
    /// The target directory is there and was not to be overwritten: the
    /// host warns and writes nothing.
    Kept,
    /// The host clears the target directory and writes these files.
    Written(Vec<OutputFile>),
}

/// What was chosen for a new application.
pub struct Settings {
    pub force: bool,
    pub directory: Seq<char>,
    pub tauri_path: Option<Seq<char>>,
    pub app_name: Option<Seq<char>>,
    pub window_title: Option<Seq<char>>,
    pub dist_dir: Option<Seq<char>>,
    pub dev_path: Option<Seq<char>>,
}

/// The data that the template is rendered with: the two dependencies, then
/// the four names that the application chose or their defaults.
pub open spec fn template_data(settings: Settings, tauri: Seq<char>, tauri_build: Seq<char>) -> Seq<
    (Seq<char>, Seq<char>),
> {
    seq![
        (
            "tauri_dep"@,
            match settings.tauri_path {
                Some(path) => dependency_on_path(resolved(path, "core/tauri"@)),
                None => dependency_on_version(tauri),
            },
        ),
        (
            "tauri_build_dep"@,
            match settings.tauri_path {
                Some(path) => dependency_on_path(resolved(path, "core/tauri-build"@)),
                None => dependency_on_version(tauri_build),
            },
        ),
        ("dist_dir"@, or_default(settings.dist_dir, "../dist"@)),
        ("dev_path"@, or_default(settings.dev_path, "http://localhost:4000"@)),
        ("app_name"@, or_default(settings.app_name, "Tauri App"@)),
        ("window_title"@, or_default(settings.window_title, "Tauri"@)),
    ]
}

/// What is written for one file of the template, where something is: a
/// file that is text is rendered with the data, any other is copied.
pub open spec fn rendered(
    path: Seq<char>,
    contents: Seq<u8>,
    data: Seq<(Seq<char>, Seq<char>)>,
) -> Option<(Seq<char>, Seq<u8>)> {
    if valid_utf8(contents) {
        match handlebars_text(decode_utf8(contents), data) {
            Some(text) => Some((output_path(path), encode_utf8(text))),
            None => None,
        }
    } else {
        Some((output_path(path), contents))
    }
}

/// Renders one file of the template with the given data.
pub fn render_file(file: &TemplateFile, data: &Vec<(String, String)>) -> (output: Option<
    OutputFile,
>)
    ensures
        match output {
            Some(written) => rendered(file.path@, file.contents@, data_view(data@)) == Some(
                (written.path@, written.contents@),
            ),
            None => rendered(file.path@, file.contents@, data_view(data@)) is None,
        },
{
    match utf8_text(&file.contents) {
        Some(template) => match render_template(template.as_str(), data) {
            Some(text) => Some(
                OutputFile {
                    path: output_path_of(file.path.as_str()),
                    contents: text.as_str().as_bytes_vec(),
                },
            ),
            None => None,
        },
        None => Some(
            OutputFile {
                path: output_path_of(file.path.as_str()),
                contents: file.contents.clone(),
            },
        ),
    }
}

/// The choices for a new application.
#[derive(Debug)]
pub struct Init {
    force: bool,
    directory: String,
    tauri_path: Option<String>,
    app_name: Option<String>,
    window_title: Option<String>,
    dist_dir: Option<String>,
    dev_path: Option<String>,
}

impl View for Init {
    type V = Settings;

    closed spec fn view(&self) -> Settings {
        Settings {
            force: self.force,
            directory: self.directory@,
            tauri_path: text_of(self.tauri_path),
            app_name: text_of(self.app_name),
            window_title: text_of(self.window_title),
            dist_dir: text_of(self.dist_dir),
            dev_path: text_of(self.dev_path),
        }
    }
}

impl Default for Init {
    /// Nothing chosen: the application goes into the directory in which
    /// the process stands, and an application that is there is kept.
    fn default() -> (init: Self)
        ensures
            init@ == (Settings {
                force: false,
                directory: "."@,
                tauri_path: None,
                app_name: None,
                window_title: None,
                dist_dir: None,
                dev_path: None,
            }),
    {
        Init {
            force: false,
            directory: ".".to_owned(),
            tauri_path: None,
            app_name: None,
            window_title: None,
            dist_dir: None,
            dev_path: None,
        }
    }
}

impl Init {
    /// Nothing chosen yet.
    pub fn new() -> (init: Init)
        ensures
            init@ == (Settings {
                force: false,
                directory: "."@,
                tauri_path: None,
                app_name: None,
                window_title: None,
                dist_dir: None,
                dev_path: None,
            }),
    {
        Init::default()
    }

    /// Overwrites an application that is there already.
    pub fn force(self) -> (init: Init)
        ensures
            init@ == (Settings { force: true, ..self@ }),
    {
        Init { force: true, ..self }
    }

    /// Puts the application into `directory`.
    pub fn directory(self, directory: String) -> (init: Init)
        ensures
            init@ == (Settings { directory: directory@, ..self@ }),
    {
        Init { directory, ..self }
    }

    /// Depends on the crates of a local checkout at `tauri_path`, not on
    /// released versions.
    pub fn tauri_path(self, tauri_path: String) -> (init: Init)
        ensures
            init@ == (Settings { tauri_path: Some(tauri_path@), ..self@ }),
    {
        Init { tauri_path: Some(tauri_path), ..self }
    }

    /// Names the application.
    pub fn app_name(self, app_name: String) -> (init: Init)
        ensures
            init@ == (Settings { app_name: Some(app_name@), ..self@ }),
    {
        Init { app_name: Some(app_name), ..self }
    }

    /// Sets the title of the application's window.
    pub fn window_title(self, window_title: String) -> (init: Init)
        ensures
            init@ == (Settings { window_title: Some(window_title@), ..self@ }),
    {
        Init { window_title: Some(window_title), ..self }
    }

    /// Says where the built web assets are, seen from the application.
    pub fn dist_dir(self, dist_dir: String) -> (init: Init)
        ensures
            init@ == (Settings { dist_dir: Some(dist_dir@), ..self@ }),
    {
        Init { dist_dir: Some(dist_dir), ..self }
    }

    /// Says where the development server is.
    pub fn dev_path(self, dev_path: String) -> (init: Init)
        ensures
            init@ == (Settings { dev_path: Some(dev_path@), ..self@ }),
    {
        Init { dev_path: Some(dev_path), ..self }
    }

    /// The directory that the application goes into.
    pub fn target_directory(&self) -> (directory: &String)
        ensures
            directory@ == self@.directory,
    {
        &self.directory
    }

    /// Whether anything is written where the target directory is there
    /// (`target_exists`) or is not.
    pub fn writes(&self, target_exists: bool) -> (yes: bool)
        ensures
            yes == (!target_exists || self@.force),
    {
        !target_exists || self.force
    }

    /// The data that the template is rendered with.
    pub fn data(&self, metadata: &VersionMetadata) -> (data: Vec<(String, String)>)
        ensures
            data_view(data@) == template_data(self@, metadata.tauri@, metadata.tauri_build@),
    {
        let (tauri_dep, tauri_build_dep) = match &self.tauri_path {
            Some(tauri_path) => {
                (
                    dependency_at(resolve_tauri_path(tauri_path.as_str(), "core/tauri").as_str()),
                    dependency_at(
                        resolve_tauri_path(tauri_path.as_str(), "core/tauri-build").as_str(),
                    ),
                )
            },
            None => (
                dependency_version(metadata.tauri.as_str()),
                dependency_version(metadata.tauri_build.as_str()),
            ),
        };
        let mut data: Vec<(String, String)> = Vec::new();
        data.push(("tauri_dep".to_owned(), tauri_dep));
        data.push(("tauri_build_dep".to_owned(), tauri_build_dep));
        data.push(("dist_dir".to_owned(), text_or(&self.dist_dir, "../dist")));
        data.push(("dev_path".to_owned(), text_or(&self.dev_path, "http://localhost:4000")));
        data.push(("app_name".to_owned(), text_or(&self.app_name, "Tauri App")));
        data.push(("window_title".to_owned(), text_or(&self.window_title, "Tauri")));
        assert(data_view(data@) =~= template_data(self@, metadata.tauri@, metadata.tauri_build@));
        data
    }

    /// Works out what to write for a new application.
    ///
    /// Where the target directory is there and is not to be overwritten,
    /// nothing is written. Else every file of the template is written, in
    /// the order of the template: text rendered with the data, anything
    /// else copied. The first file whose text does not render ends the work
    /// with its path, and nothing is to be written.
    pub fn run(
        self,
        target_exists: bool,
        metadata: &VersionMetadata,
        template: &Vec<TemplateFile>,
    ) -> (scaffold: Result<Scaffold, InitError>)
        ensures
            scaffolded(
                self@,
                target_exists,
                template_data(self@, metadata.tauri@, metadata.tauri_build@),
                template@,
                scaffold,
            ),
    {
        if !self.writes(target_exists) {
            return Ok(Scaffold::Kept);
        }
        let data = self.data(metadata);
        let mut files: Vec<OutputFile> = Vec::new();
        let mut i: usize = 0;
        while i < template.len()
            invariant
                i <= template@.len(),
                files@.len() == i,
                !target_exists || self@.force,
                data_view(data@) == template_data(self@, metadata.tauri@, metadata.tauri_build@),
                forall|k: int|
                    0 <= k < i ==> rendered(
                        (#[trigger] template@[k]).path@,
                        template@[k].contents@,
                        data_view(data@),
                    ) == Some((files@[k].path@, files@[k].contents@)),
            decreases template@.len() - i,
        {
            match render_file(&template[i], &data) {
                Some(output) => {
                    files.push(output);
                },
                None => {
                    let path = template[i].path.clone();
                    assert(path@ == template@[i as int].path@ && rendered(
                        template@[i as int].path@,
                        template@[i as int].contents@,
                        data_view(data@),
                    ) is None);
                    return Err(InitError::Render(path));
                },
            }
            i = i + 1;
        }
        Ok(Scaffold::Written(files))
    }
}

/// What scaffolding comes to, for given choices, data and template.
pub open spec fn scaffolded(
    settings: Settings,
    target_exists: bool,
    data: Seq<(Seq<char>, Seq<char>)>,
    template: Seq<TemplateFile>,
    scaffold: Result<Scaffold, InitError>,
) -> bool {
    match scaffold {
        Ok(Scaffold::Kept) => target_exists && !settings.force,
        Ok(Scaffold::Written(files)) => {
            &&& !target_exists || settings.force
            &&& files@.len() == template.len()
            &&& forall|k: int|
                0 <= k < template.len() ==> rendered(
                    (#[trigger] template[k]).path@,
                    template[k].contents@,
                    data,
                ) == Some((files@[k].path@, files@[k].contents@))
        },
        Err(InitError::Render(path)) => {
            &&& !target_exists || settings.force
            &&& exists|at: int|
                0 <= at < template.len() && path@ == (#[trigger] template[at]).path@ && rendered(
                    template[at].path@,
                    template[at].contents@,
                    data,
                ) is None && forall|k: int|
                    0 <= k < at ==> rendered(
                        (#[trigger] template[k]).path@,
                        template[k].contents@,
                        data,
                    ) is Some
        },
    }
}

/// Writes a dependency on a released version for a manifest.
pub fn dependency_version(version: &str) -> (text: String)
    ensures
        text@ == dependency_on_version(version@),
{
    let mut text = "{ version = \"".to_owned();
    text.append(version);
    text.append("\" }");
    text
}

/// Writes a dependency on a crate at a path for a manifest.
pub fn dependency_at(path: &str) -> (text: String)
    ensures
        text@ == dependency_on_path(path@),
{
    let mut text = "{  path = ".to_owned();
    text.append(path_debug(path).as_str());
    text.append(" }");
    text
}

/// `text`, or `fallback` where there is none.
pub fn text_or(text: &Option<String>, fallback: &str) -> (value: String)
    ensures
        value@ == or_default(text_of(*text), fallback@),
{
    match text {
        Some(chosen) => chosen.clone(),
        None => fallback.to_owned(),
    }
}

} // verus!
