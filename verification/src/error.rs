//! Error types of each domain, with the text that each error reads as.
use vstd::prelude::*;
use crate::text::{concat2, concat3, owned};

verus! {

/// Errors of the project scaffold.
#[derive(Debug, PartialEq, Eq)]
pub enum ScaffoldError {
    /// The target directory already exists.
    DirectoryExists(String),
    /// The template is not in the catalog.
    TemplateNotFound(String),
    /// A file-system operation failed; holds the system's description of the failure.
    Io(String),
}

/// Errors of the Git utilities.
#[derive(Debug, PartialEq, Eq)]
pub enum GitError {
    /// No Git repository in the current directory.
    NoRepository,
    /// The Git library failed; holds its description of the failure.
    LibGit(String),
    /// No conventional commit was found for the changelog.
    NoConventionalCommits,
}

/// Errors of the terminal dashboard.
#[derive(Debug, PartialEq, Eq)]
pub enum DashboardError {
    /// The terminal backend failed; holds the system's description of the failure.
    Terminal(String),
    /// Drawing failed.
    Render(String),
}

/// Errors of the skills.sh integration.
#[derive(Debug, PartialEq, Eq)]
pub enum SkillsError {
    /// The HTTP request failed.
    Network(String),
    /// The HTML could not be used.
    ParseError(String),
}

impl ScaffoldError {
    pub open spec fn spec_message(&self) -> Seq<char> {
        match self {
            ScaffoldError::DirectoryExists(d) => "El directorio '"@ + d@ + "' ya existe y no está vacío"@,
            ScaffoldError::TemplateNotFound(t) => "Template '"@ + t@
                + "' no encontrado. Usa los templates disponibles del catálogo."@,
            ScaffoldError::Io(e) => "Error de IO: "@ + e@,
        }
    }

    /// The text this error reads as.
    pub fn message(&self) -> (r: String)
        ensures
            r@ == self.spec_message(),
    {
        match self {
            ScaffoldError::DirectoryExists(d) => concat3(
                "El directorio '",
                d.as_str(),
                "' ya existe y no está vacío",
            ),
            ScaffoldError::TemplateNotFound(t) => concat3(
                "Template '",
                t.as_str(),
                "' no encontrado. Usa los templates disponibles del catálogo.",
            ),
            ScaffoldError::Io(e) => concat2("Error de IO: ", e.as_str()),
        }
    }
}

impl GitError {
    pub open spec fn spec_message(&self) -> Seq<char> {
        match self {
            GitError::NoRepository => "No se encontró repositorio Git en el directorio actual"@,
            GitError::LibGit(e) => "Error de Git: "@ + e@,
            GitError::NoConventionalCommits => "No se encontraron commits convencionales para el changelog"@,
        }
    }

    /// The text this error reads as.
    pub fn message(&self) -> (r: String)
        ensures
            r@ == self.spec_message(),
    {
        match self {
            GitError::NoRepository => owned("No se encontró repositorio Git en el directorio actual"),
            GitError::LibGit(e) => concat2("Error de Git: ", e.as_str()),
            GitError::NoConventionalCommits => owned(
                "No se encontraron commits convencionales para el changelog",
            ),
        }
    }
}

impl DashboardError {
    pub open spec fn spec_message(&self) -> Seq<char> {
        match self {
            DashboardError::Terminal(e) => "Error de terminal: "@ + e@,
            DashboardError::Render(e) => "Error de renderizado: "@ + e@,
        }
    }

    /// The text this error reads as.
    pub fn message(&self) -> (r: String)
        ensures
            r@ == self.spec_message(),
    {
        match self {
            DashboardError::Terminal(e) => concat2("Error de terminal: ", e.as_str()),
            DashboardError::Render(e) => concat2("Error de renderizado: ", e.as_str()),
        }
    }
}

impl SkillsError {
    pub open spec fn spec_message(&self) -> Seq<char> {
        match self {
            SkillsError::Network(e) => "Error al hacer la solicitud de web scraping: "@ + e@,
            SkillsError::ParseError(e) => "Error al parsear el HTML: "@ + e@,
        }
    }

    /// The text this error reads as.
    pub fn message(&self) -> (r: String)
        ensures
            r@ == self.spec_message(),
    {
        match self {
            SkillsError::Network(e) => concat2("Error al hacer la solicitud de web scraping: ", e.as_str()),
            SkillsError::ParseError(e) => concat2("Error al parsear el HTML: ", e.as_str()),
        }
    }
}

} // verus!
