use vstd::prelude::*;
use crate::text::{has_prefix, has_suffix, starts_with, ends_with};

verus! {

/// `handlebars::RenderError` is carried opaquely as the failure of a render.
#[verifier::external_type_specification]
#[verifier::external_body]
pub struct ExRenderError(handlebars::RenderError);

/// What rendering `template` with the data `{ "name": name }` gives with a
/// fresh, non-strict `handlebars::Handlebars` registry: the text, or `None`
/// when rendering fails.
pub uninterp spec fn handlebars_render(template: Seq<char>, name: Seq<char>) -> Option<Seq<char>>;

/// Renders `template` with `{ "name": name }` through
/// `handlebars::Handlebars::render_template` on a fresh registry with strict
/// mode off.
///
/// Trusted: the outcome is a function of the two texts alone, named
/// [`handlebars_render`].
#[verifier::external_body]
fn render_with_name(template: &str, name: &str) -> (r: Result<String, handlebars::RenderError>)
    ensures
        match r {
            Ok(s) => handlebars_render(template@, name@) == Some(s@),
            Err(_) => handlebars_render(template@, name@) is None,
        },
{
    let mut hbs = handlebars::Handlebars::new();
    hbs.set_strict_mode(false);
    let mut data = std::collections::BTreeMap::new();
    data.insert("name", name);
    hbs.render_template(template, &data)
}

/// What to do about the target directory before scaffolding.
#[derive(PartialEq, Eq, Structural, Debug)]
pub enum Preflight {
    /// It exists and `--force` was not given: refuse.
    Refuse,
    /// It exists and `--force` was given: remove it first.
    ReplaceExisting,
    /// It does not exist.
    Create,
}

/// Decide how to treat the target directory.
pub fn preflight(target_exists: bool, force: bool) -> (r: Preflight)
    ensures
        r == if !target_exists {
            Preflight::Create
        } else if force {
            Preflight::ReplaceExisting
        } else {
            Preflight::Refuse
        },
{
    if target_exists {
        if force {
            Preflight::ReplaceExisting
        } else {
            Preflight::Refuse
        }
    } else {
        Preflight::Create
    }
}

/// What to do with one entry of the template tree.
pub enum EntryAction {
    /// Leave it out.
    Skip,
    /// Create this directory (relative to the target).
    CreateDir(String),
    /// Write this file (relative to the target), rendering it first when
    /// `render` is set.
    WriteFile { dst: String, render: bool },
}

/// `.tmpl`
pub open spec fn tmpl_suffix() -> Seq<char> {
    seq!['.', 't', 'm', 'p', 'l']
}

/// `tests`
pub open spec fn tests_prefix() -> Seq<char> {
    seq!['t', 'e', 's', 't', 's']
}

/// The template files that only Docker setups need.
pub open spec fn is_docker_file(rel: Seq<char>) -> bool {
    ||| rel == seq!['D', 'o', 'c', 'k', 'e', 'r', 'f', 'i', 'l', 'e'] + tmpl_suffix()
    ||| rel == seq![
        'd', 'o', 'c', 'k', 'e', 'r', '-', 'c', 'o', 'm', 'p', 'o', 's', 'e', '.', 'y', 'm', 'l',
    ] + tmpl_suffix()
    ||| rel == seq!['.', 'e', 'n', 'v', '.', 'e', 'x', 'a', 'm', 'p', 'l', 'e'] + tmpl_suffix()
}

/// The destination of a template entry: its relative path without a
/// trailing `.tmpl`.
pub open spec fn destination(rel: Seq<char>) -> Seq<char> {
    if ends_with(rel, tmpl_suffix()) {
        rel.subrange(0, rel.len() - 5)
    } else {
        rel
    }
}

/// The last component of a relative path.
pub open spec fn file_name(rel: Seq<char>) -> Seq<char> {
    if exists|i: int| 0 <= i < rel.len() && rel[i] == '/' {
        let i = choose|i: int|
            0 <= i < rel.len() && rel[i] == '/' && forall|j: int| i < j < rel.len() ==> rel[j] != '/';
        rel.subrange(i + 1, rel.len() as int)
    } else {
        rel
    }
}

/// Whether the entry's extension is `tmpl`: its file name ends in `.tmpl`
/// with something before the dot.
pub open spec fn has_tmpl_extension(rel: Seq<char>) -> bool {
    ends_with(file_name(rel), tmpl_suffix()) && file_name(rel).len() > 5
}

/// The action for a template entry, given whether it is a directory and
/// which optional parts were asked for.
pub open spec fn entry_action_spec(
    rel: Seq<char>,
    is_dir: bool,
    with_docker: bool,
    with_tests: bool,
    a: EntryAction,
) -> bool {
    if (!with_docker && is_docker_file(rel)) || (!with_tests && starts_with(rel, tests_prefix())) {
        a is Skip
    } else if is_dir {
        a is CreateDir && a->CreateDir_0@ == destination(rel)
    } else {
        a is WriteFile && a->dst@ == destination(rel) && a->render == has_tmpl_extension(rel)
    }
}

/// Index just after the last `/` of `rel`, or 0 when there is none.
fn file_name_start(rel: &str) -> (r: usize)
    ensures
        r <= rel@.len(),
        rel@.subrange(r as int, rel@.len() as int) == file_name(rel@),
{
    let n = rel.unicode_len();
    let mut i = n;
    while i > 0 && rel.get_char(i - 1) != '/'
        invariant
            i <= n,
            n == rel@.len(),
            forall|j: int| i <= j < n ==> rel@[j] != '/',
        decreases i,
    {
        i = i - 1;
    }
    if i > 0 {
        assert(rel@[i - 1] == '/');
        let ghost k = choose|k: int|
            0 <= k < rel@.len() && rel@[k] == '/' && forall|j: int| k < j < rel@.len() ==> rel@[j] != '/';
        assert(k == i - 1) by {
            if k < i - 1 {
                assert(rel@[i - 1] != '/');
            }
        }
    }
    i
}

/// Decide what to do with one entry of the template tree: Docker files are
/// left out without `with_docker`, anything under `tests` without
/// `with_tests`; a `.tmpl` suffix is dropped from the destination, and only
/// files with the `tmpl` extension are rendered.
pub fn entry_action(rel: &str, is_dir: bool, with_docker: bool, with_tests: bool) -> (r: EntryAction)
    ensures
        entry_action_spec(rel@, is_dir, with_docker, with_tests, r),
{
    proof {
        reveal_strlit("Dockerfile.tmpl");
        reveal_strlit("docker-compose.yml.tmpl");
        reveal_strlit(".env.example.tmpl");
        reveal_strlit("tests");
        reveal_strlit(".tmpl");
        assert("tests"@ =~= tests_prefix());
        assert(".tmpl"@ =~= tmpl_suffix());
        assert("Dockerfile.tmpl"@ =~= seq!['D', 'o', 'c', 'k', 'e', 'r', 'f', 'i', 'l', 'e']
            + tmpl_suffix());
        assert("docker-compose.yml.tmpl"@ =~= seq![
            'd', 'o', 'c', 'k', 'e', 'r', '-', 'c', 'o', 'm', 'p', 'o', 's', 'e', '.', 'y', 'm', 'l',
        ] + tmpl_suffix());
        assert(".env.example.tmpl"@ =~= seq!['.', 'e', 'n', 'v', '.', 'e', 'x', 'a', 'm', 'p', 'l', 'e']
            + tmpl_suffix());
    }
    let rel_s = rel.to_string();
    if !with_docker {
        if rel_s == "Dockerfile.tmpl".to_string() || rel_s == "docker-compose.yml.tmpl".to_string()
            || rel_s == ".env.example.tmpl".to_string() {
            return EntryAction::Skip;
        }
    }
    if !with_tests && has_prefix(rel, "tests") {
        return EntryAction::Skip;
    }
    let n = rel.unicode_len();
    let dst = if has_suffix(rel, ".tmpl") {
        rel.substring_char(0, n - 5).to_string()
    } else {
        rel_s
    };
    if is_dir {
        return EntryAction::CreateDir(dst);
    }
    let start = file_name_start(rel);
    let name = rel.substring_char(start, n);
    let render = has_suffix(name, ".tmpl") && name.unicode_len() > 5;
    EntryAction::WriteFile { dst, render }
}

/// Errors of the scaffolding tool.
pub enum ScaffoldError {
    /// The target directory exists and `--force` was not given.
    DirectoryExists(String),
    /// The named template does not exist at the given path.
    TemplateNotFound { template: String, path: String },
    /// A template file failed to render.
    Render(handlebars::RenderError),
}

impl ScaffoldError {
    /// The message the tool reports for the error.
    pub open spec fn text(self) -> Option<Seq<char>> {
        match self {
            ScaffoldError::DirectoryExists(name) => Some(
                seq!['D', 'i', 'r', 'e', 'c', 't', 'o', 'r', 'y', ' ', '\''] + name@ + seq![
                    '\'', ' ', 'a', 'l', 'r', 'e', 'a', 'd', 'y', ' ', 'e', 'x', 'i', 's', 't', 's',
                    '.', ' ', 'U', 's', 'e', ' ', '-', '-', 'f', 'o', 'r', 'c', 'e', ' ', 't', 'o',
                    ' ', 'o', 'v', 'e', 'r', 'w', 'r', 'i', 't', 'e', '.',
                ],
            ),
            ScaffoldError::TemplateNotFound { template, path } => Some(
                seq!['T', 'e', 'm', 'p', 'l', 'a', 't', 'e', ' ', '\''] + template@ + seq![
                    '\'', ' ', 'n', 'o', 't', ' ', 'f', 'o', 'u', 'n', 'd', ' ', 'a', 't', ' ',
                ] + path@,
            ),
            ScaffoldError::Render(_) => None,
        }
    }

    /// The message for the two errors the tool words itself (a render
    /// error keeps the renderer's own message).
    pub fn message(&self) -> (r: Option<String>)
        ensures
            match r {
                Some(m) => self.text() == Some(m@),
                None => self.text() is None,
            },
    {
        match self {
            ScaffoldError::DirectoryExists(name) => {
                proof {
                    reveal_strlit("Directory '");
                    reveal_strlit("' already exists. Use --force to overwrite.");
                }
                let mut s = "Directory '".to_string();
                s.append(name.as_str());
                s.append("' already exists. Use --force to overwrite.");
                Some(s)
            },
            ScaffoldError::TemplateNotFound { template, path } => {
                proof {
                    reveal_strlit("Template '");
                    reveal_strlit("' not found at ");
                }
                let mut s = "Template '".to_string();
                s.append(template.as_str());
                s.append("' not found at ");
                s.append(path.as_str());
                Some(s)
            },
            ScaffoldError::Render(_) => None,
        }
    }
}

/// The contents to write for a template file: rendered with the project
/// name when `render` is set, otherwise the raw text.
pub fn file_contents(raw: String, render: bool, name: &str) -> (r: Result<String, ScaffoldError>)
    ensures
        !render ==> r is Ok && r->Ok_0 == raw,
        render ==> match handlebars_render(raw@, name@) {
            Some(s) => r is Ok && r->Ok_0@ == s,
            None => r is Err && r->Err_0 is Render,
        },
{
    if render {
        render_outcome(render_with_name(raw.as_str(), name))
    } else {
        Ok(raw)
    }
}

/// The contents for the outcome of a render: the rendered text, or the
/// render error.
pub fn render_outcome(rendered: Result<String, handlebars::RenderError>) -> (r: Result<
    String,
    ScaffoldError,
>)
    ensures
        match rendered {
            Ok(s) => r is Ok && r->Ok_0 == s,
            Err(e) => r is Err && r->Err_0 == ScaffoldError::Render(e),
        },
{
    match rendered {
        Ok(s) => Ok(s),
        Err(e) => Err(ScaffoldError::Render(e)),
    }
}

/// The lines printed after a project is created: a summary, then the next
/// steps, with the Docker step only when Docker files were written.
pub open spec fn completion_text(name: Seq<char>, template: Seq<char>, with_docker: bool) -> Seq<
    Seq<char>,
> {
    let head = seq![
        "\u{2713} Created Rusta project '"@ + name + "' using template '"@ + template + "'"@,
        ""@,
        "Next steps:"@,
        "  cd "@ + name,
    ];
    let docker = if with_docker {
        seq!["  docker compose up -d"@]
    } else {
        Seq::<Seq<char>>::empty()
    };
    head + docker + seq!["  cargo run"@]
}

/// What the tool tells the user after creating a project: it names the
/// project and the template it came from, the next steps start by entering
/// the project's own directory, the docker step comes exactly when docker
/// files were written, and the last step runs the project.
pub proof fn law_completion_guides_into_the_project(name: Seq<char>, template: Seq<char>, with_docker: bool)
    ensures
        completion_text(name, template, with_docker).len() == if with_docker { 6int } else { 5int },
        completion_text(name, template, with_docker)[0] == "\u{2713} Created Rusta project '"@ + name
            + "' using template '"@ + template + "'"@,
        completion_text(name, template, with_docker)[2] == "Next steps:"@,
        completion_text(name, template, with_docker)[3] == "  cd "@ + name,
        with_docker ==> completion_text(name, template, with_docker)[4] == "  docker compose up -d"@,
        completion_text(name, template, with_docker).last() == "  cargo run"@,
{
}

/// The lines the tool prints after creating project `name` from `template`.
pub fn completion_lines(name: &str, template: &str, with_docker: bool) -> (r: Vec<String>)
    ensures
        r@.map_values(|s: String| s@) == completion_text(name@, template@, with_docker),
        r@.len() >= 4,
        r@[3]@ == "  cd "@ + name@,
{
    let mut lines: Vec<String> = Vec::new();
    let mut first = "\u{2713} Created Rusta project '".to_string();
    first.append(name);
    first.append("' using template '");
    first.append(template);
    first.append("'");
    lines.push(first);
    lines.push("".to_string());
    lines.push("Next steps:".to_string());
    let mut cd = "  cd ".to_string();
    cd.append(name);
    lines.push(cd);
    if with_docker {
        lines.push("  docker compose up -d".to_string());
    }
    lines.push("  cargo run".to_string());
    assert(lines@.map_values(|s: String| s@) =~= completion_text(name@, template@, with_docker));
    proof {
        law_completion_guides_into_the_project(name@, template@, with_docker);
        assert(lines@.map_values(|s: String| s@)[3] == lines@[3]@);
    }
    lines
}

} // verus!
