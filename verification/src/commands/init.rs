//! Project scaffold: every template is a Docker Compose project with a Dockerfile,
//! a Makefile, a .gitignore and a README. This module decides, for a template and
//! a project name, which directories and files make up the project, what each
//! file holds and what the scaffold reports; writing them to disk is the caller's part.
use vstd::prelude::*;
use crate::commands::templates;
use crate::error::ScaffoldError;
use crate::text::{
    concat2, concat3, contains_seq, lemma_occurs_in_middle, lemma_replace_at_start, lemma_replace_plain,
    lemma_replace_plain_prefix, occurs_at, owned, replace_all, replace_str, str_eq,
};

verus! {

/// The catalog of templates.
pub const AVAILABLE_TEMPLATES: [&'static str; 5] = [
    "rust-cli",
    "rust-api",
    "python-fastapi",
    "python-django",
    "node-express",
];

/// What stands for the project's name in the file contents.
pub const PLACEHOLDER: &'static str = "{project_name}";

/// A template of the catalog.
#[derive(Debug, Clone, Copy, PartialEq, Eq)]
pub enum Template {
    RustCli,
    RustApi,
    PythonFastapi,
    PythonDjango,
    NodeExpress,
}

/// A file of a project: its path relative to the project directory, and its content.
pub struct ProjectFile {
    pub path: String,
    pub content: String,
}

impl View for ProjectFile {
    type V = (Seq<char>, Seq<char>);

    open spec fn view(&self) -> (Seq<char>, Seq<char>) {
        (self.path@, self.content@)
    }
}

/// The directories and files of a project.
pub struct ProjectLayout {
    pub directories: Vec<String>,
    pub files: Vec<ProjectFile>,
}

/// Everything the scaffold creates for one project.
pub struct ScaffoldPlan {
    /// The project's name, which is also its directory.
    pub project_name: String,
    pub template: Template,
    /// Directories to create inside the project directory, in order.
    pub directories: Vec<String>,
    /// Files to write inside the project directory, in order.
    pub files: Vec<ProjectFile>,
}

// ───────────────────────────── Models ─────────────────────────────

pub open spec fn catalog() -> Seq<Seq<char>> {
    AVAILABLE_TEMPLATES@.map_values(|t: &str| t@)
}

/// The template a catalog name stands for.
pub open spec fn template_named(s: Seq<char>) -> Option<Template> {
    if s == catalog()[0] {
        Some(Template::RustCli)
    } else if s == catalog()[1] {
        Some(Template::RustApi)
    } else if s == catalog()[2] {
        Some(Template::PythonFastapi)
    } else if s == catalog()[3] {
        Some(Template::PythonDjango)
    } else if s == catalog()[4] {
        Some(Template::NodeExpress)
    } else {
        None
    }
}

pub open spec fn template_name(t: Template) -> Seq<char> {
    match t {
        Template::RustCli => catalog()[0],
        Template::RustApi => catalog()[1],
        Template::PythonFastapi => catalog()[2],
        Template::PythonDjango => catalog()[3],
        Template::NodeExpress => catalog()[4],
    }
}

/// `text` with the project's name in place of the placeholder.
pub open spec fn fill(text: Seq<char>, name: Seq<char>) -> Seq<char> {
    replace_all(text, PLACEHOLDER@, name)
}

pub open spec fn files_view(files: Seq<ProjectFile>) -> Seq<(Seq<char>, Seq<char>)> {
    files.map_values(|f: ProjectFile| f@)
}

pub open spec fn strs_view(v: Seq<String>) -> Seq<Seq<char>> {
    v.map_values(|s: String| s@)
}

pub open spec fn dockerfile_of(t: Template, name: Seq<char>) -> Seq<char> {
    match t {
        Template::RustCli => fill(templates::DOCKERFILE_RUST_CLI@, name),
        Template::RustApi => fill(templates::DOCKERFILE_RUST_API@, name),
        Template::PythonFastapi => templates::DOCKERFILE_FASTAPI@,
        Template::PythonDjango => templates::DOCKERFILE_DJANGO@,
        Template::NodeExpress => templates::DOCKERFILE_NODE@,
    }
}

pub open spec fn compose_of(t: Template, name: Seq<char>) -> Seq<char> {
    match t {
        Template::RustCli => fill(templates::COMPOSE_RUST_CLI@, name),
        Template::RustApi => fill(templates::COMPOSE_RUST_API@, name),
        Template::PythonFastapi => fill(templates::COMPOSE_FASTAPI@, name),
        Template::PythonDjango => fill(templates::COMPOSE_DJANGO@, name),
        Template::NodeExpress => fill(templates::COMPOSE_NODE@, name),
    }
}

/// The template's own targets followed by the Docker Compose targets.
pub open spec fn makefile_of(t: Template) -> Seq<char> {
    let specific = match t {
        Template::RustCli => templates::MAKEFILE_RUST@,
        Template::RustApi => templates::MAKEFILE_RUST@,
        Template::PythonFastapi => templates::MAKEFILE_FASTAPI@,
        Template::PythonDjango => templates::MAKEFILE_DJANGO@,
        Template::NodeExpress => templates::MAKEFILE_NODE@,
    };
    specific + templates::MAKEFILE_DOCKER_TARGETS@
}

/// The common entries followed by the template's own entries.
pub open spec fn gitignore_of(t: Template) -> Seq<char> {
    let specific = match t {
        Template::RustCli => templates::GITIGNORE_RUST@,
        Template::RustApi => templates::GITIGNORE_RUST@,
        Template::PythonFastapi => templates::GITIGNORE_FASTAPI@,
        Template::PythonDjango => templates::GITIGNORE_DJANGO@,
        Template::NodeExpress => templates::GITIGNORE_NODE@,
    };
    templates::GITIGNORE_COMMON@ + specific
}

/// The files every project has: Dockerfile, docker-compose.yml, Makefile, .gitignore, README.md.
pub open spec fn common_files_of(t: Template, name: Seq<char>) -> Seq<(Seq<char>, Seq<char>)> {
    seq![
        ("Dockerfile"@, dockerfile_of(t, name)),
        ("docker-compose.yml"@, compose_of(t, name)),
        ("Makefile"@, makefile_of(t)),
        (".gitignore"@, gitignore_of(t)),
        ("README.md"@, fill(templates::README_MD@, name)),
    ]
}

pub open spec fn project_dirs_of(t: Template, name: Seq<char>) -> Seq<Seq<char>> {
    match t {
        Template::RustCli => seq!["src"@, "tests"@],
        Template::RustApi => seq!["src"@, "tests"@],
        Template::PythonFastapi => seq!["app"@, "tests"@],
        Template::PythonDjango => seq![name, "static"@, "templates"@, "apps"@],
        Template::NodeExpress => seq!["src"@, "tests"@],
    }
}

/// The template's own files, before the common ones.
pub open spec fn own_files_of(t: Template, name: Seq<char>) -> Seq<(Seq<char>, Seq<char>)> {
    match t {
        Template::RustCli => seq![
            ("Cargo.toml"@, fill(templates::RUST_CLI_CARGO_TOML@, name)),
            ("src/main.rs"@, templates::RUST_CLI_MAIN_RS@),
        ],
        Template::RustApi => seq![
            ("Cargo.toml"@, fill(templates::RUST_API_CARGO_TOML@, name)),
            ("src/main.rs"@, templates::RUST_API_MAIN_RS@),
        ],
        Template::PythonFastapi => seq![
            ("pyproject.toml"@, fill(templates::FASTAPI_PYPROJECT_TOML@, name)),
            ("app/main.py"@, templates::FASTAPI_MAIN_PY@),
            ("app/__init__.py"@, ""@),
        ],
        Template::PythonDjango => seq![
            ("manage.py"@, fill(templates::DJANGO_MANAGE_PY@, name)),
            (name + "/settings.py"@, fill(templates::DJANGO_SETTINGS_PY@, name)),
            (name + "/urls.py"@, fill(templates::DJANGO_URLS_PY@, name)),
            (name + "/wsgi.py"@, fill(templates::DJANGO_WSGI_PY@, name)),
            (name + "/__init__.py"@, ""@),
            ("requirements.txt"@, templates::DJANGO_REQUIREMENTS@),
            (".env.example"@, fill(templates::DJANGO_ENV_EXAMPLE@, name)),
        ],
        Template::NodeExpress => seq![
            ("package.json"@, fill(templates::NODE_PACKAGE_JSON@, name)),
            ("src/index.js"@, templates::NODE_INDEX_JS@),
        ],
    }
}

pub open spec fn project_files_of(t: Template, name: Seq<char>) -> Seq<(Seq<char>, Seq<char>)> {
    own_files_of(t, name) + common_files_of(t, name)
}

/// The line that reports a written file.
pub open spec fn created_line(path: Seq<char>) -> Seq<char> {
    "✔ Creado: "@ + path
}

/// What the scaffold reports once every file is written: a heading, one line per
/// file, a line for the Git repository if one was initialized, and a closing line.
pub open spec fn scaffold_logs(
    name: Seq<char>,
    t: Template,
    files: Seq<(Seq<char>, Seq<char>)>,
    git_initialized: bool,
) -> Seq<Seq<char>> {
    seq!["📦 Creando proyecto '"@ + name + "' ("@ + template_name(t) + ")"@] + files.map_values(
        |f: (Seq<char>, Seq<char>)| created_line(f.0),
    ) + (if git_initialized {
        seq!["🔀 Repositorio Git inicializado"@]
    } else {
        Seq::empty()
    }) + seq!["✅ ¡Proyecto '"@ + name + "' creado exitosamente!"@]
}

// ───────────────────────────── Laws ─────────────────────────────

/// The paths of a list of files.
pub open spec fn paths_of(files: Seq<(Seq<char>, Seq<char>)>) -> Seq<Seq<char>> {
    files.map_values(|f: (Seq<char>, Seq<char>)| f.0)
}

/// Every project, whatever its template and name, is Docker Compose ready: it has a
/// `Dockerfile`, a `docker-compose.yml`, a `Makefile` and a `.gitignore`.
pub proof fn lemma_every_project_is_docker_ready(t: Template, name: Seq<char>)
    ensures
        paths_of(project_files_of(t, name)).contains("Dockerfile"@),
        paths_of(project_files_of(t, name)).contains("docker-compose.yml"@),
        paths_of(project_files_of(t, name)).contains("Makefile"@),
        paths_of(project_files_of(t, name)).contains(".gitignore"@),
{
    let own = own_files_of(t, name);
    let all = project_files_of(t, name);
    let n = own.len() as int;
    assert(all[n] == common_files_of(t, name)[0]);
    assert(all[n + 1] == common_files_of(t, name)[1]);
    assert(all[n + 2] == common_files_of(t, name)[2]);
    assert(all[n + 3] == common_files_of(t, name)[3]);
    assert(paths_of(all)[n] == "Dockerfile"@);
    assert(paths_of(all)[n + 1] == "docker-compose.yml"@);
    assert(paths_of(all)[n + 2] == "Makefile"@);
    assert(paths_of(all)[n + 3] == ".gitignore"@);
}

/// Each template's catalog name stands for that template, and a name stands for a
/// template only if it is that template's catalog name.
pub proof fn lemma_catalog_names_round_trip(t: Template, s: Seq<char>)
    ensures
        template_named(template_name(t)) == Some(t),
        template_named(s) == Some(t) ==> template_name(t) == s,
{
    reveal_strlit("rust-cli");
    reveal_strlit("rust-api");
    reveal_strlit("python-fastapi");
    reveal_strlit("python-django");
    reveal_strlit("node-express");
    assert(catalog()[0] == "rust-cli"@);
    assert(catalog()[1] == "rust-api"@);
    assert(catalog()[2] == "python-fastapi"@);
    assert(catalog()[3] == "python-django"@);
    assert(catalog()[4] == "node-express"@);
    assert(catalog()[0] != catalog()[1]) by {
        assert(catalog()[0][5] != catalog()[1][5]);
    }
    assert(catalog()[2] != catalog()[3]) by {
        assert(catalog()[2].len() != catalog()[3].len());
    }
    assert(catalog()[0] != catalog()[2] && catalog()[0] != catalog()[3] && catalog()[0] != catalog()[4]) by {
        assert(catalog()[0].len() != catalog()[2].len());
        assert(catalog()[0].len() != catalog()[3].len());
        assert(catalog()[0].len() != catalog()[4].len());
    }
    assert(catalog()[1] != catalog()[2] && catalog()[1] != catalog()[3] && catalog()[1] != catalog()[4]) by {
        assert(catalog()[1].len() != catalog()[2].len());
        assert(catalog()[1].len() != catalog()[3].len());
        assert(catalog()[1].len() != catalog()[4].len());
    }
    assert(catalog()[2] != catalog()[4] && catalog()[3] != catalog()[4]) by {
        assert(catalog()[2].len() != catalog()[4].len());
        assert(catalog()[3].len() != catalog()[4].len());
    }
}

/// Filling a text with one placeholder at `k`, and no other character that starts
/// one, puts the name in its place.
proof fn lemma_fill_one_placeholder(c: Seq<char>, k: int, name: Seq<char>)
    requires
        0 <= k,
        k + PLACEHOLDER@.len() <= c.len(),
        c.subrange(k, k + PLACEHOLDER@.len()) == PLACEHOLDER@,
        forall|i: int| 0 <= i < c.len() && i != k ==> #[trigger] c[i] != '{',
    ensures
        fill(c, name) == c.take(k) + name + c.skip(k + PLACEHOLDER@.len()),
{
    reveal_strlit("{project_name}");
    let p = PLACEHOLDER@;
    let u = c.take(k);
    let v = c.skip(k + p.len());
    assert(c =~= u + (p + v));
    assert forall|i: int| 0 <= i < u.len() implies #[trigger] u[i] != p[0] by {
        assert(u[i] == c[i]);
    }
    assert forall|i: int| 0 <= i < v.len() implies #[trigger] v[i] != p[0] by {
        assert(v[i] == c[k + p.len() + i]);
    }
    lemma_replace_plain_prefix(u, p + v, p, name);
    lemma_replace_at_start(v, p, name);
    lemma_replace_plain(v, p, name);
    assert(u + (name + v) =~= u + name + v);
}

/// The FastAPI and the Express projects are each started by their own compose file,
/// which runs what the project's Dockerfile builds: for FastAPI, `uvicorn app.main:app`
/// on port 8000, which the Dockerfile exposes and serves `app.main:app` on; for
/// Express, `npm run dev` on port 3000, which the Dockerfile exposes and serves
/// `src/index.js` on. Whatever the project's name, the two compose files differ.
pub proof fn lemma_compose_runs_what_dockerfile_builds(name: Seq<char>)
    ensures
        contains_seq(compose_of(Template::PythonFastapi, name), "uvicorn app.main:app"@),
        contains_seq(compose_of(Template::PythonFastapi, name), "\"8000:8000\""@),
        contains_seq(dockerfile_of(Template::PythonFastapi, name), "\"app.main:app\""@),
        contains_seq(dockerfile_of(Template::PythonFastapi, name), "EXPOSE 8000"@),
        contains_seq(compose_of(Template::NodeExpress, name), "npm run dev"@),
        contains_seq(compose_of(Template::NodeExpress, name), "\"3000:3000\""@),
        contains_seq(dockerfile_of(Template::NodeExpress, name), "\"src/index.js\""@),
        contains_seq(dockerfile_of(Template::NodeExpress, name), "EXPOSE 3000"@),
        compose_of(Template::PythonFastapi, name) != compose_of(Template::NodeExpress, name),
{
    reveal_strlit(r#"services:
  app:
    build: .
    container_name: {project_name}
    ports:
      - "8000:8000"
    restart: unless-stopped
    volumes:
      - .:/app
    environment:
      - PYTHONDONTWRITEBYTECODE=1
      - PYTHONUNBUFFERED=1
    command: uvicorn app.main:app --host 0.0.0.0 --port 8000 --reload
    healthcheck:
      test: ["CMD", "curl", "-f", "http://localhost:8000/health"]
      interval: 30s
      timeout: 10s
      retries: 3
"#);
    reveal_strlit(r#"services:
  app:
    build: .
    container_name: {project_name}
    ports:
      - "3000:3000"
    restart: unless-stopped
    volumes:
      - .:/app
      - /app/node_modules
    environment:
      - NODE_ENV=development
      - PORT=3000
    command: npm run dev
    healthcheck:
      test: ["CMD", "curl", "-f", "http://localhost:3000/health"]
      interval: 30s
      timeout: 10s
      retries: 3
"#);
    reveal_strlit(r#"# ── Build stage ──
FROM python:3.12-slim AS builder

WORKDIR /app

# Instalar dependencias Python en un entorno virtual
RUN python -m venv /opt/venv
ENV PATH="/opt/venv/bin:$PATH"
COPY pyproject.toml .
COPY app ./app
RUN pip install --no-cache-dir .

# ── Runtime stage ──
FROM python:3.12-slim

WORKDIR /app
COPY --from=builder /opt/venv /opt/venv
ENV PATH="/opt/venv/bin:$PATH"
COPY . .

EXPOSE 8000
CMD ["uvicorn", "app.main:app", "--host", "0.0.0.0", "--port", "8000"]
"#);
    reveal_strlit(r#"# ── Build stage ──
FROM node:20-slim AS builder

WORKDIR /app

# Instalar dependencias
COPY package*.json .
RUN npm ci --production

COPY . .

# ── Runtime stage ──
FROM node:20-slim

WORKDIR /app
ENV NODE_ENV=production
COPY --from=builder /app .

EXPOSE 3000
CMD ["node", "src/index.js"]
"#);
    reveal_strlit("{project_name}");
    reveal_strlit("uvicorn app.main:app");
    reveal_strlit("\"8000:8000\"");
    reveal_strlit("\"app.main:app\"");
    reveal_strlit("EXPOSE 8000");
    reveal_strlit("npm run dev");
    reveal_strlit("\"3000:3000\"");
    reveal_strlit("\"src/index.js\"");
    reveal_strlit("EXPOSE 3000");
    let cf = templates::COMPOSE_FASTAPI@;
    let cn = templates::COMPOSE_NODE@;
    assert(cf.subrange(50, 64) =~= PLACEHOLDER@);
    assert(cn.subrange(50, 64) =~= PLACEHOLDER@);
    lemma_fill_one_placeholder(cf, 50, name);
    lemma_fill_one_placeholder(cn, 50, name);
    let uf = cf.take(50) + name;
    let vf = cf.skip(64);
    let un = cn.take(50) + name;
    let vn = cn.skip(64);
    assert(compose_of(Template::PythonFastapi, name) =~= uf + vf + Seq::empty());
    assert(compose_of(Template::NodeExpress, name) =~= un + vn + Seq::empty());
    assert(vf.subrange(179, 199) =~= "uvicorn app.main:app"@);
    lemma_occurs_in_middle(uf, vf, Seq::empty(), "uvicorn app.main:app"@, 179);
    assert(vf.subrange(20, 31) =~= "\"8000:8000\""@);
    lemma_occurs_in_middle(uf, vf, Seq::empty(), "\"8000:8000\""@, 20);
    assert(vn.subrange(191, 202) =~= "npm run dev"@);
    lemma_occurs_in_middle(un, vn, Seq::empty(), "npm run dev"@, 191);
    assert(vn.subrange(20, 31) =~= "\"3000:3000\""@);
    lemma_occurs_in_middle(un, vn, Seq::empty(), "\"3000:3000\""@, 20);
    let df = templates::DOCKERFILE_FASTAPI@;
    let dn = templates::DOCKERFILE_NODE@;
    assert(df.subrange(419, 433) =~= "\"app.main:app\""@);
    assert(occurs_at(df, "\"app.main:app\""@, 419));
    assert(df.subrange(391, 402) =~= "EXPOSE 8000"@);
    assert(occurs_at(df, "EXPOSE 8000"@, 391));
    assert(dn.subrange(275, 289) =~= "\"src/index.js\""@);
    assert(occurs_at(dn, "\"src/index.js\""@, 275));
    assert(dn.subrange(250, 261) =~= "EXPOSE 3000"@);
    assert(occurs_at(dn, "EXPOSE 3000"@, 250));
    let at = 50 + name.len() as int + 21;
    assert(compose_of(Template::PythonFastapi, name)[at] == '8');
    assert(compose_of(Template::NodeExpress, name)[at] == '3');
}

/// Characters of the rust cli `docker-compose.yml` that set it apart from the other templates'.
proof fn lemma_compose_marks_rust_cli(name: Seq<char>)
    ensures
        compose_of(Template::RustCli, name).len() > 50 + name.len() + 23,
        compose_of(Template::RustCli, name)[12] == 'a',
        compose_of(Template::RustCli, name)[50 + name.len() as int + 5] == 'r',
        compose_of(Template::RustCli, name)[50 + name.len() as int + 21] == 's',
        compose_of(Template::RustCli, name)[50 + name.len() as int + 23] == 'o',
{
    reveal_strlit(r#"services:
  app:
    build: .
    container_name: {project_name}
    restart: unless-stopped
    volumes:
      - .:/app
"#);
    reveal_strlit("{project_name}");
    let c = templates::COMPOSE_RUST_CLI@;
    assert(c.subrange(50, 64) =~= PLACEHOLDER@);
    lemma_fill_one_placeholder(c, 50, name);
}

/// Characters of the rust api `docker-compose.yml` that set it apart from the other templates'.
proof fn lemma_compose_marks_rust_api(name: Seq<char>)
    ensures
        compose_of(Template::RustApi, name).len() > 50 + name.len() + 23,
        compose_of(Template::RustApi, name)[12] == 'a',
        compose_of(Template::RustApi, name)[50 + name.len() as int + 5] == 'p',
        compose_of(Template::RustApi, name)[50 + name.len() as int + 21] == '8',
        compose_of(Template::RustApi, name)[50 + name.len() as int + 23] == '8',
{
    reveal_strlit(r#"services:
  app:
    build: .
    container_name: {project_name}
    ports:
      - "8080:8080"
    restart: unless-stopped
    environment:
      - RUST_LOG=info
    healthcheck:
      test: ["CMD", "curl", "-f", "http://localhost:8080/health"]
      interval: 30s
      timeout: 10s
      retries: 3
"#);
    reveal_strlit("{project_name}");
    let c = templates::COMPOSE_RUST_API@;
    assert(c.subrange(50, 64) =~= PLACEHOLDER@);
    lemma_fill_one_placeholder(c, 50, name);
}

/// Characters of the fastapi `docker-compose.yml` that set it apart from the other templates'.
proof fn lemma_compose_marks_fastapi(name: Seq<char>)
    ensures
        compose_of(Template::PythonFastapi, name).len() > 50 + name.len() + 23,
        compose_of(Template::PythonFastapi, name)[12] == 'a',
        compose_of(Template::PythonFastapi, name)[50 + name.len() as int + 5] == 'p',
        compose_of(Template::PythonFastapi, name)[50 + name.len() as int + 21] == '8',
        compose_of(Template::PythonFastapi, name)[50 + name.len() as int + 23] == '0',
{
    reveal_strlit(r#"services:
  app:
    build: .
    container_name: {project_name}
    ports:
      - "8000:8000"
    restart: unless-stopped
    volumes:
      - .:/app
    environment:
      - PYTHONDONTWRITEBYTECODE=1
      - PYTHONUNBUFFERED=1
    command: uvicorn app.main:app --host 0.0.0.0 --port 8000 --reload
    healthcheck:
      test: ["CMD", "curl", "-f", "http://localhost:8000/health"]
      interval: 30s
      timeout: 10s
      retries: 3
"#);
    reveal_strlit("{project_name}");
    let c = templates::COMPOSE_FASTAPI@;
    assert(c.subrange(50, 64) =~= PLACEHOLDER@);
    lemma_fill_one_placeholder(c, 50, name);
}

/// Characters of the django `docker-compose.yml` that set it apart from the other templates'.
proof fn lemma_compose_marks_django(name: Seq<char>)
    ensures
        compose_of(Template::PythonDjango, name).len() > 12,
        compose_of(Template::PythonDjango, name)[12] == '#',
{
    reveal_strlit(r#"services:
  # ── Aplicación Django ──
  app:
    build: .
    container_name: {project_name}_app
    ports:
      - "8000:8000"
    restart: unless-stopped
    volumes:
      - .:/app
      - static_data:/app/staticfiles
    environment:
      - DJANGO_SECRET_KEY=${DJANGO_SECRET_KEY:-change-me-in-production}
      - DJANGO_DEBUG=${DJANGO_DEBUG:-True}
      - DJANGO_ALLOWED_HOSTS=${DJANGO_ALLOWED_HOSTS:-*}
      - POSTGRES_DB=${POSTGRES_DB:-{project_name}_db}
      - POSTGRES_USER=${POSTGRES_USER:-postgres}
      - POSTGRES_PASSWORD=${POSTGRES_PASSWORD:-postgres}
      - POSTGRES_HOST=db
      - POSTGRES_PORT=5432
    depends_on:
      db:
        condition: service_healthy
    command: >
      sh -c "python manage.py migrate &&
             python manage.py runserver 0.0.0.0:8000"
    healthcheck:
      test: ["CMD", "curl", "-f", "http://localhost:8000/health/"]
      interval: 30s
      timeout: 10s
      retries: 5

  # ── Base de datos PostgreSQL ──
  db:
    image: postgres:16-alpine
    container_name: {project_name}_db
    restart: unless-stopped
    volumes:
      - postgres_data:/var/lib/postgresql/data
    environment:
      - POSTGRES_DB=${POSTGRES_DB:-{project_name}_db}
      - POSTGRES_USER=${POSTGRES_USER:-postgres}
      - POSTGRES_PASSWORD=${POSTGRES_PASSWORD:-postgres}
    ports:
      - "5432:5432"
    healthcheck:
      test: ["CMD-SHELL", "pg_isready -U postgres"]
      interval: 10s
      timeout: 5s
      retries: 5

volumes:
  postgres_data:
    driver: local
  static_data:
    driver: local
"#);
    reveal_strlit("{project_name}");
    let c = templates::COMPOSE_DJANGO@;
    let u = c.take(78);
    assert(c =~= u + c.skip(78));
    assert forall|i: int| 0 <= i < u.len() implies #[trigger] u[i] != PLACEHOLDER@[0] by {
        assert(u[i] == c[i]);
    }
    lemma_replace_plain_prefix(u, c.skip(78), PLACEHOLDER@, name);
    assert(compose_of(Template::PythonDjango, name)[12] == u[12]);
}

/// Characters of the node `docker-compose.yml` that set it apart from the other templates'.
proof fn lemma_compose_marks_node(name: Seq<char>)
    ensures
        compose_of(Template::NodeExpress, name).len() > 50 + name.len() + 23,
        compose_of(Template::NodeExpress, name)[12] == 'a',
        compose_of(Template::NodeExpress, name)[50 + name.len() as int + 5] == 'p',
        compose_of(Template::NodeExpress, name)[50 + name.len() as int + 21] == '3',
        compose_of(Template::NodeExpress, name)[50 + name.len() as int + 23] == '0',
{
    reveal_strlit(r#"services:
  app:
    build: .
    container_name: {project_name}
    ports:
      - "3000:3000"
    restart: unless-stopped
    volumes:
      - .:/app
      - /app/node_modules
    environment:
      - NODE_ENV=development
      - PORT=3000
    command: npm run dev
    healthcheck:
      test: ["CMD", "curl", "-f", "http://localhost:3000/health"]
      interval: 30s
      timeout: 10s
      retries: 3
"#);
    reveal_strlit("{project_name}");
    let c = templates::COMPOSE_NODE@;
    assert(c.subrange(50, 64) =~= PLACEHOLDER@);
    lemma_fill_one_placeholder(c, 50, name);
}

/// Characters of the rust cli `Dockerfile` that set it apart from the other templates'.
proof fn lemma_dockerfile_marks_rust_cli(name: Seq<char>)
    ensures
        dockerfile_of(Template::RustCli, name).len() > 306 + name.len() + 20,
        dockerfile_of(Template::RustCli, name)[25] == 'r',
        dockerfile_of(Template::RustCli, name)[306 + name.len() as int + 20] == 'C',
{
    reveal_strlit(r#"# ── Build stage ──
FROM rust:1.83-slim AS builder
WORKDIR /app
COPY . .
RUN cargo build --release

# ── Runtime stage ──
FROM debian:bookworm-slim
RUN apt-get update && apt-get install -y --no-install-recommends ca-certificates \
    && rm -rf /var/lib/apt/lists/*
COPY --from=builder /app/target/release/{project_name} /usr/local/bin/app
CMD ["app"]
"#);
    reveal_strlit("{project_name}");
    let c = templates::DOCKERFILE_RUST_CLI@;
    assert(c.subrange(306, 320) =~= PLACEHOLDER@);
    lemma_fill_one_placeholder(c, 306, name);
}

/// Characters of the rust api `Dockerfile` that set it apart from the other templates'.
proof fn lemma_dockerfile_marks_rust_api(name: Seq<char>)
    ensures
        dockerfile_of(Template::RustApi, name).len() > 306 + name.len() + 20,
        dockerfile_of(Template::RustApi, name)[25] == 'r',
        dockerfile_of(Template::RustApi, name)[306 + name.len() as int + 20] == 'E',
{
    reveal_strlit(r#"# ── Build stage ──
FROM rust:1.83-slim AS builder
WORKDIR /app
COPY . .
RUN cargo build --release

# ── Runtime stage ──
FROM debian:bookworm-slim
RUN apt-get update && apt-get install -y --no-install-recommends ca-certificates \
    && rm -rf /var/lib/apt/lists/*
COPY --from=builder /app/target/release/{project_name} /usr/local/bin/app
EXPOSE 8080
CMD ["app"]
"#);
    reveal_strlit("{project_name}");
    let c = templates::DOCKERFILE_RUST_API@;
    assert(c.subrange(306, 320) =~= PLACEHOLDER@);
    lemma_fill_one_placeholder(c, 306, name);
}

/// Characters of the fastapi `Dockerfile` that set it apart from the other templates'.
proof fn lemma_dockerfile_marks_fastapi(name: Seq<char>)
    ensures
        dockerfile_of(Template::PythonFastapi, name).len() > 92,
        dockerfile_of(Template::PythonFastapi, name)[25] == 'p',
        dockerfile_of(Template::PythonFastapi, name)[92] == 'P',
{
    reveal_strlit(r#"# ── Build stage ──
FROM python:3.12-slim AS builder

WORKDIR /app

# Instalar dependencias Python en un entorno virtual
RUN python -m venv /opt/venv
ENV PATH="/opt/venv/bin:$PATH"
COPY pyproject.toml .
COPY app ./app
RUN pip install --no-cache-dir .

# ── Runtime stage ──
FROM python:3.12-slim

WORKDIR /app
COPY --from=builder /opt/venv /opt/venv
ENV PATH="/opt/venv/bin:$PATH"
COPY . .

EXPOSE 8000
CMD ["uvicorn", "app.main:app", "--host", "0.0.0.0", "--port", "8000"]
"#);
}

/// Characters of the django `Dockerfile` that set it apart from the other templates'.
proof fn lemma_dockerfile_marks_django(name: Seq<char>)
    ensures
        dockerfile_of(Template::PythonDjango, name).len() > 92,
        dockerfile_of(Template::PythonDjango, name)[25] == 'p',
        dockerfile_of(Template::PythonDjango, name)[92] == 'd',
{
    reveal_strlit(r#"# ── Build stage ──
FROM python:3.12-slim AS builder

WORKDIR /app

# Instalar dependencias del sistema para compilar el driver de PostgreSQL
RUN apt-get update && apt-get install -y --no-install-recommends \
    libpq-dev gcc \
    && rm -rf /var/lib/apt/lists/*

# Instalar dependencias Python en un entorno virtual
RUN python -m venv /opt/venv
ENV PATH="/opt/venv/bin:$PATH"
COPY requirements.txt .
RUN pip install --no-cache-dir -r requirements.txt

# ── Runtime stage ──
FROM python:3.12-slim

WORKDIR /app

# Biblioteca cliente de PostgreSQL
RUN apt-get update && apt-get install -y --no-install-recommends \
    libpq5 \
    && rm -rf /var/lib/apt/lists/*

COPY --from=builder /opt/venv /opt/venv
ENV PATH="/opt/venv/bin:$PATH"
COPY . .

# Recolectar archivos estáticos
RUN python manage.py collectstatic --noinput || true

EXPOSE 8000
CMD ["gunicorn", "--bind", "0.0.0.0:8000", "--workers", "3", "--timeout", "120"]
"#);
}

/// Characters of the node `Dockerfile` that set it apart from the other templates'.
proof fn lemma_dockerfile_marks_node(name: Seq<char>)
    ensures
        dockerfile_of(Template::NodeExpress, name).len() > 92,
        dockerfile_of(Template::NodeExpress, name)[25] == 'n',
        dockerfile_of(Template::NodeExpress, name)[92] == ' ',
{
    reveal_strlit(r#"# ── Build stage ──
FROM node:20-slim AS builder

WORKDIR /app

# Instalar dependencias
COPY package*.json .
RUN npm ci --production

COPY . .

# ── Runtime stage ──
FROM node:20-slim

WORKDIR /app
ENV NODE_ENV=production
COPY --from=builder /app .

EXPOSE 3000
CMD ["node", "src/index.js"]
"#);
}

/// Each template has its own Docker files: whatever the project's name, two different
/// templates never get the same `docker-compose.yml`, nor the same `Dockerfile`.
pub proof fn lemma_templates_have_their_own_docker_files(t1: Template, t2: Template, name: Seq<char>)
    requires
        t1 != t2,
    ensures
        compose_of(t1, name) != compose_of(t2, name),
        dockerfile_of(t1, name) != dockerfile_of(t2, name),
{
    lemma_compose_marks_rust_cli(name);
    lemma_compose_marks_rust_api(name);
    lemma_compose_marks_fastapi(name);
    lemma_compose_marks_django(name);
    lemma_compose_marks_node(name);
    lemma_dockerfile_marks_rust_cli(name);
    lemma_dockerfile_marks_rust_api(name);
    lemma_dockerfile_marks_fastapi(name);
    lemma_dockerfile_marks_django(name);
    lemma_dockerfile_marks_node(name);
}

// ───────────────────────────── Functions ─────────────────────────────

/// The template a catalog name stands for, if any.
pub fn template_from_name(name: &str) -> (r: Option<Template>)
    ensures
        r == template_named(name@),
        r is Some <==> catalog().contains(name@),
{
    let r = if str_eq(name, AVAILABLE_TEMPLATES[0]) {
        Some(Template::RustCli)
    } else if str_eq(name, AVAILABLE_TEMPLATES[1]) {
        Some(Template::RustApi)
    } else if str_eq(name, AVAILABLE_TEMPLATES[2]) {
        Some(Template::PythonFastapi)
    } else if str_eq(name, AVAILABLE_TEMPLATES[3]) {
        Some(Template::PythonDjango)
    } else if str_eq(name, AVAILABLE_TEMPLATES[4]) {
        Some(Template::NodeExpress)
    } else {
        None
    };
    proof {
        assert(catalog().len() == 5);
        if catalog().contains(name@) {
            let k = choose|k: int| 0 <= k < catalog().len() && catalog()[k] == name@;
            assert(0 <= k < 5);
        }
        if r is Some {
            if name@ == catalog()[0] {
                assert(catalog()[0] == name@);
            } else if name@ == catalog()[1] {
                assert(catalog()[1] == name@);
            } else if name@ == catalog()[2] {
                assert(catalog()[2] == name@);
            } else if name@ == catalog()[3] {
                assert(catalog()[3] == name@);
            } else {
                assert(catalog()[4] == name@);
            }
        }
    }
    r
}

impl Template {
    /// The catalog name of the template.
    pub fn name(&self) -> (r: &'static str)
        ensures
            r@ == template_name(*self),
    {
        match self {
            Template::RustCli => AVAILABLE_TEMPLATES[0],
            Template::RustApi => AVAILABLE_TEMPLATES[1],
            Template::PythonFastapi => AVAILABLE_TEMPLATES[2],
            Template::PythonDjango => AVAILABLE_TEMPLATES[3],
            Template::NodeExpress => AVAILABLE_TEMPLATES[4],
        }
    }
}

/// `text` with the project's name in place of every placeholder.
pub fn fill_template(text: &str, project_name: &str) -> (r: String)
    ensures
        r@ == fill(text@, project_name@),
{
    replace_str(text, PLACEHOLDER, project_name)
}

fn project_file(path: String, content: String) -> (f: ProjectFile)
    ensures
        f@ == (path@, content@),
{
    ProjectFile { path, content }
}

/// The Dockerfile of a project.
pub fn generate_dockerfile(template: Template, project_name: &str) -> (r: String)
    ensures
        r@ == dockerfile_of(template, project_name@),
{
    match template {
        Template::RustCli => fill_template(templates::DOCKERFILE_RUST_CLI, project_name),
        Template::RustApi => fill_template(templates::DOCKERFILE_RUST_API, project_name),
        Template::PythonFastapi => owned(templates::DOCKERFILE_FASTAPI),
        Template::PythonDjango => owned(templates::DOCKERFILE_DJANGO),
        Template::NodeExpress => owned(templates::DOCKERFILE_NODE),
    }
}

/// The docker-compose.yml of a project.
pub fn generate_docker_compose(template: Template, project_name: &str) -> (r: String)
    ensures
        r@ == compose_of(template, project_name@),
{
    match template {
        Template::RustCli => fill_template(templates::COMPOSE_RUST_CLI, project_name),
        Template::RustApi => fill_template(templates::COMPOSE_RUST_API, project_name),
        Template::PythonFastapi => fill_template(templates::COMPOSE_FASTAPI, project_name),
        Template::PythonDjango => fill_template(templates::COMPOSE_DJANGO, project_name),
        Template::NodeExpress => fill_template(templates::COMPOSE_NODE, project_name),
    }
}

/// The Makefile of a project.
pub fn generate_makefile(template: Template) -> (r: String)
    ensures
        r@ == makefile_of(template),
{
    let specific = match template {
        Template::RustCli => templates::MAKEFILE_RUST,
        Template::RustApi => templates::MAKEFILE_RUST,
        Template::PythonFastapi => templates::MAKEFILE_FASTAPI,
        Template::PythonDjango => templates::MAKEFILE_DJANGO,
        Template::NodeExpress => templates::MAKEFILE_NODE,
    };
    concat2(specific, templates::MAKEFILE_DOCKER_TARGETS)
}

/// The .gitignore of a project.
pub fn generate_gitignore(template: Template) -> (r: String)
    ensures
        r@ == gitignore_of(template),
{
    let specific = match template {
        Template::RustCli => templates::GITIGNORE_RUST,
        Template::RustApi => templates::GITIGNORE_RUST,
        Template::PythonFastapi => templates::GITIGNORE_FASTAPI,
        Template::PythonDjango => templates::GITIGNORE_DJANGO,
        Template::NodeExpress => templates::GITIGNORE_NODE,
    };
    concat2(templates::GITIGNORE_COMMON, specific)
}

/// The files every project has.
pub fn create_common_files(template: Template, project_name: &str) -> (files: Vec<ProjectFile>)
    ensures
        files_view(files@) == common_files_of(template, project_name@),
{
    let mut files: Vec<ProjectFile> = Vec::new();
    files.push(project_file(owned("Dockerfile"), generate_dockerfile(template, project_name)));
    files.push(
        project_file(owned("docker-compose.yml"), generate_docker_compose(template, project_name)),
    );
    files.push(project_file(owned("Makefile"), generate_makefile(template)));
    files.push(project_file(owned(".gitignore"), generate_gitignore(template)));
    files.push(project_file(owned("README.md"), fill_template(templates::README_MD, project_name)));
    assert(files_view(files@) =~= common_files_of(template, project_name@));
    files
}

fn push_dir(dirs: &mut Vec<String>, d: &str)
    ensures
        strs_view(final(dirs)@) == strs_view(old(dirs)@).push(d@),
{
    let ghost before = dirs@;
    dirs.push(owned(d));
    assert(strs_view(dirs@) =~= strs_view(before).push(d@));
}

fn push_file(files: &mut Vec<ProjectFile>, path: String, content: String)
    ensures
        files_view(final(files)@) == files_view(old(files)@).push((path@, content@)),
{
    let ghost before = files@;
    files.push(project_file(path, content));
    assert(files_view(files@) =~= files_view(before).push((path@, content@)));
}

/// Appends the common files after the template's own files.
fn with_common_files(own: Vec<ProjectFile>, template: Template, project_name: &str) -> (files: Vec<
    ProjectFile,
>)
    ensures
        files_view(files@) == files_view(own@) + common_files_of(template, project_name@),
{
    let mut files = own;
    let mut common = create_common_files(template, project_name);
    let ghost a = files@;
    let ghost b = common@;
    files.append(&mut common);
    assert(files_view(files@) =~= files_view(a) + files_view(b));
    files
}

/// A Rust CLI project (clap, serde, thiserror).
pub fn create_rust_cli_project(project_name: &str) -> (p: ProjectLayout)
    ensures
        strs_view(p.directories@) == project_dirs_of(Template::RustCli, project_name@),
        files_view(p.files@) == project_files_of(Template::RustCli, project_name@),
{
    let mut dirs: Vec<String> = Vec::new();
    push_dir(&mut dirs, "src");
    push_dir(&mut dirs, "tests");
    let mut own: Vec<ProjectFile> = Vec::new();
    push_file(&mut own, owned("Cargo.toml"), fill_template(templates::RUST_CLI_CARGO_TOML, project_name));
    push_file(&mut own, owned("src/main.rs"), owned(templates::RUST_CLI_MAIN_RS));
    let files = with_common_files(own, Template::RustCli, project_name);
    assert(strs_view(dirs@) =~= project_dirs_of(Template::RustCli, project_name@));
    assert(files_view(files@) =~= project_files_of(Template::RustCli, project_name@));
    ProjectLayout { directories: dirs, files }
}

/// A Rust API project (actix-web, tokio).
pub fn create_rust_api_project(project_name: &str) -> (p: ProjectLayout)
    ensures
        strs_view(p.directories@) == project_dirs_of(Template::RustApi, project_name@),
        files_view(p.files@) == project_files_of(Template::RustApi, project_name@),
{
    let mut dirs: Vec<String> = Vec::new();
    push_dir(&mut dirs, "src");
    push_dir(&mut dirs, "tests");
    let mut own: Vec<ProjectFile> = Vec::new();
    push_file(&mut own, owned("Cargo.toml"), fill_template(templates::RUST_API_CARGO_TOML, project_name));
    push_file(&mut own, owned("src/main.rs"), owned(templates::RUST_API_MAIN_RS));
    let files = with_common_files(own, Template::RustApi, project_name);
    assert(strs_view(dirs@) =~= project_dirs_of(Template::RustApi, project_name@));
    assert(files_view(files@) =~= project_files_of(Template::RustApi, project_name@));
    ProjectLayout { directories: dirs, files }
}

/// A Python project with FastAPI and uvicorn.
pub fn create_python_fastapi_project(project_name: &str) -> (p: ProjectLayout)
    ensures
        strs_view(p.directories@) == project_dirs_of(Template::PythonFastapi, project_name@),
        files_view(p.files@) == project_files_of(Template::PythonFastapi, project_name@),
{
    let mut dirs: Vec<String> = Vec::new();
    push_dir(&mut dirs, "app");
    push_dir(&mut dirs, "tests");
    let mut own: Vec<ProjectFile> = Vec::new();
    push_file(
        &mut own,
        owned("pyproject.toml"),
        fill_template(templates::FASTAPI_PYPROJECT_TOML, project_name),
    );
    push_file(&mut own, owned("app/main.py"), owned(templates::FASTAPI_MAIN_PY));
    push_file(&mut own, owned("app/__init__.py"), owned(""));
    let files = with_common_files(own, Template::PythonFastapi, project_name);
    assert(strs_view(dirs@) =~= project_dirs_of(Template::PythonFastapi, project_name@));
    assert(files_view(files@) =~= project_files_of(Template::PythonFastapi, project_name@));
    ProjectLayout { directories: dirs, files }
}

/// A Python project with Django, Gunicorn and PostgreSQL.
pub fn create_django_project(project_name: &str) -> (p: ProjectLayout)
    ensures
        strs_view(p.directories@) == project_dirs_of(Template::PythonDjango, project_name@),
        files_view(p.files@) == project_files_of(Template::PythonDjango, project_name@),
{
    let mut dirs: Vec<String> = Vec::new();
    push_dir(&mut dirs, project_name);
    push_dir(&mut dirs, "static");
    push_dir(&mut dirs, "templates");
    push_dir(&mut dirs, "apps");
    let mut own: Vec<ProjectFile> = Vec::new();
    push_file(&mut own, owned("manage.py"), fill_template(templates::DJANGO_MANAGE_PY, project_name));
    push_file(
        &mut own,
        concat2(project_name, "/settings.py"),
        fill_template(templates::DJANGO_SETTINGS_PY, project_name),
    );
    push_file(
        &mut own,
        concat2(project_name, "/urls.py"),
        fill_template(templates::DJANGO_URLS_PY, project_name),
    );
    push_file(
        &mut own,
        concat2(project_name, "/wsgi.py"),
        fill_template(templates::DJANGO_WSGI_PY, project_name),
    );
    push_file(&mut own, concat2(project_name, "/__init__.py"), owned(""));
    push_file(&mut own, owned("requirements.txt"), owned(templates::DJANGO_REQUIREMENTS));
    push_file(
        &mut own,
        owned(".env.example"),
        fill_template(templates::DJANGO_ENV_EXAMPLE, project_name),
    );
    let files = with_common_files(own, Template::PythonDjango, project_name);
    assert(strs_view(dirs@) =~= project_dirs_of(Template::PythonDjango, project_name@));
    assert(files_view(files@) =~= project_files_of(Template::PythonDjango, project_name@));
    ProjectLayout { directories: dirs, files }
}

/// A Node.js project with Express.
pub fn create_node_express_project(project_name: &str) -> (p: ProjectLayout)
    ensures
        strs_view(p.directories@) == project_dirs_of(Template::NodeExpress, project_name@),
        files_view(p.files@) == project_files_of(Template::NodeExpress, project_name@),
{
    let mut dirs: Vec<String> = Vec::new();
    push_dir(&mut dirs, "src");
    push_dir(&mut dirs, "tests");
    let mut own: Vec<ProjectFile> = Vec::new();
    push_file(&mut own, owned("package.json"), fill_template(templates::NODE_PACKAGE_JSON, project_name));
    push_file(&mut own, owned("src/index.js"), owned(templates::NODE_INDEX_JS));
    let files = with_common_files(own, Template::NodeExpress, project_name);
    assert(strs_view(dirs@) =~= project_dirs_of(Template::NodeExpress, project_name@));
    assert(files_view(files@) =~= project_files_of(Template::NodeExpress, project_name@));
    ProjectLayout { directories: dirs, files }
}

/// Plans the scaffold of a project from the catalog template `template`, in a
/// directory named `name` (or after the template when no name is given).
/// Fails exactly when the template is not in the catalog.
pub fn execute(template: &str, name: Option<&str>) -> (r: Result<ScaffoldPlan, ScaffoldError>)
    ensures
        r is Ok <==> catalog().contains(template@),
        match r {
            Ok(plan) => {
                let project_name = match name {
                    Some(n) => n@,
                    None => template@,
                };
                &&& template_named(template@) == Some(plan.template)
                &&& plan.project_name@ == project_name
                &&& strs_view(plan.directories@) == project_dirs_of(plan.template, project_name)
                &&& files_view(plan.files@) == project_files_of(plan.template, project_name)
            },
            Err(e) => e == ScaffoldError::TemplateNotFound(e->TemplateNotFound_0) && e->TemplateNotFound_0@
                == template@,
        },
{
    let t = match template_from_name(template) {
        Some(t) => t,
        None => return Err(ScaffoldError::TemplateNotFound(owned(template))),
    };
    let project_name = match name {
        Some(n) => n,
        None => template,
    };
    let layout = match t {
        Template::RustCli => create_rust_cli_project(project_name),
        Template::RustApi => create_rust_api_project(project_name),
        Template::PythonFastapi => create_python_fastapi_project(project_name),
        Template::PythonDjango => create_django_project(project_name),
        Template::NodeExpress => create_node_express_project(project_name),
    };
    Ok(
        ScaffoldPlan {
            project_name: owned(project_name),
            template: t,
            directories: layout.directories,
            files: layout.files,
        },
    )
}

impl ScaffoldPlan {
    /// Refuses a target directory that already exists.
    pub fn check_target(&self, exists: bool) -> (r: Result<(), ScaffoldError>)
        ensures
            r is Ok <==> !exists,
            r matches Err(e) ==> e == ScaffoldError::DirectoryExists(e->DirectoryExists_0)
                && e->DirectoryExists_0@ == self.project_name@,
    {
        if exists {
            Err(ScaffoldError::DirectoryExists(owned(self.project_name.as_str())))
        } else {
            Ok(())
        }
    }

    /// What the scaffold reports once every file of the plan is written.
    pub fn logs(&self, git_initialized: bool) -> (r: Vec<String>)
        ensures
            strs_view(r@) == scaffold_logs(
                self.project_name@,
                self.template,
                files_view(self.files@),
                git_initialized,
            ),
    {
        let name = self.project_name.as_str();
        let mut out: Vec<String> = Vec::new();
        let mut head = concat3("📦 Creando proyecto '", name, "' (");
        head.append(self.template.name());
        head.append(")");
        let ghost headv = head@;
        out.push(head);
        let ghost fv = files_view(self.files@);
        let ghost created = |f: (Seq<char>, Seq<char>)| created_line(f.0);
        assert(strs_view(out@) =~= scaffold_logs(name@, self.template, fv, git_initialized).take(1));
        let mut i: usize = 0;
        while i < self.files.len()
            invariant
                i <= self.files.len(),
                fv == files_view(self.files@),
                created == (|f: (Seq<char>, Seq<char>)| created_line(f.0)),
                out.len() == i + 1,
                headv == "📦 Creando proyecto '"@ + name@ + "' ("@ + template_name(self.template) + ")"@,
                strs_view(out@) == seq![headv] + fv.take(i as int).map_values(created),
            decreases self.files.len() - i,
        {
            let ghost before = strs_view(out@);
            let line = concat2("✔ Creado: ", self.files[i].path.as_str());
            out.push(line);
            assert(fv.take(i + 1).map_values(created) =~= fv.take(i as int).map_values(created).push(
                created_line(fv[i as int].0),
            ));
            assert(strs_view(out@) =~= before.push(line@));
            i += 1;
        }
        assert(fv.take(self.files.len() as int) =~= fv);
        let ghost mid = strs_view(out@);
        if git_initialized {
            out.push(owned("🔀 Repositorio Git inicializado"));
            assert(strs_view(out@) =~= mid + seq!["🔀 Repositorio Git inicializado"@]);
        } else {
            assert(strs_view(out@) =~= mid + Seq::<Seq<char>>::empty());
        }
        let ghost mid2 = strs_view(out@);
        let last = concat3("✅ ¡Proyecto '", name, "' creado exitosamente!");
        out.push(last);
        assert(strs_view(out@) =~= mid2 + seq![last@]);
        assert(strs_view(out@) =~= scaffold_logs(name@, self.template, fv, git_initialized));
        out
    }
}

} // verus!
