use dashtui::commands::init::{
    create_django_project, execute, fill_template, generate_gitignore, generate_makefile,
    template_from_name, Template, AVAILABLE_TEMPLATES,
};
use dashtui::error::ScaffoldError;

fn paths(plan_files: &[dashtui::commands::init::ProjectFile]) -> Vec<&str> {
    plan_files.iter().map(|f| f.path.as_str()).collect()
}

#[test]
fn execute_should_reject_invalid_template() {
    assert!(execute("invalid", Some("t")).is_err());
}

#[test]
fn execute_should_reject_existing_directory() {
    let dir = std::path::Path::new(".");
    let plan = execute("rust-cli", Some(".")).expect("known template");
    assert!(plan.check_target(dir.exists()).is_err());
}

#[test]
fn available_templates_should_include_django() {
    assert!(AVAILABLE_TEMPLATES.contains(&"python-django"));
}

#[test]
fn unknown_template_error_names_it() {
    let err = execute("cobol", None).err().expect("rejected");
    assert_eq!(err, ScaffoldError::TemplateNotFound("cobol".to_string()));
    assert_eq!(
        err.message(),
        "Template 'cobol' no encontrado. Usa los templates disponibles del catálogo."
    );
}

#[test]
fn rust_cli_plan_has_its_files_and_the_common_ones() {
    let plan = execute("rust-cli", Some("demo")).expect("plan");
    assert_eq!(plan.project_name, "demo");
    assert_eq!(plan.template, Template::RustCli);
    assert_eq!(plan.directories, vec!["src".to_string(), "tests".to_string()]);
    assert_eq!(
        paths(&plan.files),
        vec![
            "Cargo.toml",
            "src/main.rs",
            "Dockerfile",
            "docker-compose.yml",
            "Makefile",
            ".gitignore",
            "README.md"
        ]
    );
    assert!(plan.files[0].content.starts_with("[package]\nname = \"demo\"\n"));
    assert!(plan.files[0].content.contains("clap = { version = \"4\", features = [\"derive\"] }"));
    assert!(plan.files[2].content.contains("COPY --from=builder /app/target/release/demo /usr/local/bin/app"));
    assert!(plan.files[3].content.contains("container_name: demo\n"));
    assert_eq!(
        plan.files[6].content,
        "# demo\n\n## Inicio rápido\n\n```bash\ndocker compose up --build\n```\n\n## Desarrollo\n\n```bash\nmake dev\n```\n"
    );
    for f in &plan.files {
        assert!(!f.content.contains("{project_name}"));
    }
}

#[test]
fn plan_without_name_uses_template_name() {
    let plan = execute("node-express", None).expect("plan");
    assert_eq!(plan.project_name, "node-express");
    assert!(plan.files[0].content.contains("\"name\": \"node-express\""));
}

#[test]
fn django_plan_nests_settings_in_project_dir() {
    let layout = create_django_project("shop");
    assert_eq!(layout.directories, vec!["shop", "static", "templates", "apps"]);
    assert_eq!(
        paths(&layout.files),
        vec![
            "manage.py",
            "shop/settings.py",
            "shop/urls.py",
            "shop/wsgi.py",
            "shop/__init__.py",
            "requirements.txt",
            ".env.example",
            "Dockerfile",
            "docker-compose.yml",
            "Makefile",
            ".gitignore",
            "README.md"
        ]
    );
    assert!(layout.files[1].content.contains("ROOT_URLCONF = \"shop.urls\""));
    assert!(layout.files[1].content.contains("\"NAME\": os.environ.get(\"POSTGRES_DB\", \"shop_db\"),"));
    assert_eq!(
        layout.files[5].content,
        "django>=5.0\ngunicorn>=22.0\npsycopg2-binary>=2.9\ndjango-environ>=0.11\n"
    );
    assert!(layout.files[8].content.contains("- POSTGRES_DB=${POSTGRES_DB:-shop_db}"));
    assert!(layout.files[8].content.contains("container_name: shop_db\n"));
}

#[test]
fn makefile_and_gitignore_combine_parts() {
    let mk = generate_makefile(Template::PythonFastapi);
    assert!(mk.starts_with(".PHONY: build dev test lint up down logs restart clean-docker\n"));
    assert!(mk.ends_with("clean-docker:\n\tdocker compose down -v --rmi local\n"));
    let gi = generate_gitignore(Template::RustApi);
    assert!(gi.starts_with("# IDE\n.vscode/\n"));
    assert!(gi.ends_with(".env\n\n/target\nCargo.lock\n"));
}

#[test]
fn fill_template_replaces_every_placeholder() {
    assert_eq!(fill_template("a {project_name} b {project_name}", "x"), "a x b x");
    assert_eq!(fill_template("no placeholder", "x"), "no placeholder");
    assert_eq!(fill_template("{project_name", "x"), "{project_name");
}

#[test]
fn template_names_round_trip() {
    for name in AVAILABLE_TEMPLATES {
        let t = template_from_name(name).expect("catalog name");
        assert_eq!(t.name(), name);
    }
    assert_eq!(template_from_name("rust"), None);
}

#[test]
fn scaffold_logs_report_each_file() {
    let plan = execute("python-fastapi", Some("api")).expect("plan");
    let logs = plan.logs(true);
    assert_eq!(logs[0], "📦 Creando proyecto 'api' (python-fastapi)");
    assert_eq!(logs[1], "✔ Creado: pyproject.toml");
    assert_eq!(logs[3], "✔ Creado: app/__init__.py");
    assert_eq!(logs.len(), plan.files.len() + 3);
    assert_eq!(logs[logs.len() - 2], "🔀 Repositorio Git inicializado");
    assert_eq!(logs[logs.len() - 1], "✅ ¡Proyecto 'api' creado exitosamente!");
    assert_eq!(plan.logs(false).len(), plan.files.len() + 2);
}

#[test]
fn check_target_accepts_a_new_directory() {
    let plan = execute("rust-api", Some("fresh")).expect("plan");
    assert_eq!(plan.check_target(false), Ok(()));
    assert_eq!(
        plan.check_target(true),
        Err(ScaffoldError::DirectoryExists("fresh".to_string()))
    );
    assert_eq!(
        ScaffoldError::DirectoryExists("fresh".to_string()).message(),
        "El directorio 'fresh' ya existe y no está vacío"
    );
    assert_eq!(ScaffoldError::Io("disk full".to_string()).message(), "Error de IO: disk full");
}

#[test]
fn every_template_is_docker_compose_ready() {
    for t in AVAILABLE_TEMPLATES {
        let plan = execute(t, Some("demo")).expect("catalog template");
        let p = paths(&plan.files);
        for f in ["Dockerfile", "docker-compose.yml", "Makefile", ".gitignore"] {
            assert!(p.contains(&f), "{t} lacks {f}");
        }
    }
}

#[test]
fn every_makefile_has_up_down_build_logs() {
    for t in AVAILABLE_TEMPLATES {
        let plan = execute(t, Some("demo")).expect("catalog template");
        let makefile = &plan.files.iter().find(|f| f.path == "Makefile").expect("Makefile").content;
        for target in ["up:", "down:", "build:", "logs:"] {
            assert!(makefile.lines().any(|l| l.starts_with(target)), "{t} lacks {target}");
        }
    }
}

#[test]
fn every_dockerfile_is_multi_stage() {
    for t in AVAILABLE_TEMPLATES {
        let plan = execute(t, Some("demo")).expect("catalog template");
        let dockerfile = &plan.files.iter().find(|f| f.path == "Dockerfile").expect("Dockerfile").content;
        let stages = dockerfile.lines().filter(|l| l.starts_with("FROM ")).count();
        assert!(stages >= 2, "{t} has {stages} stage(s)");
        assert!(dockerfile.contains("COPY --from=builder"), "{t} copies nothing from its build stage");
    }
}
