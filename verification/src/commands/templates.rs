//! The file contents that the scaffold writes. `{project_name}` stands for the
//! project's name wherever it occurs.
use vstd::prelude::*;

verus! {

/// `Cargo.toml` of a Rust CLI project.
pub const RUST_CLI_CARGO_TOML: &'static str = r#"[package]
name = "{project_name}"
version = "0.1.0"
edition = "2021"

[dependencies]
clap = { version = "4", features = ["derive"] }
thiserror = "2"
serde = { version = "1", features = ["derive"] }
serde_json = "1"
"#;

/// `src/main.rs` of a Rust CLI project.
pub const RUST_CLI_MAIN_RS: &'static str = r#"use clap::Parser;

#[derive(Parser, Debug)]
#[command(version, about)]
struct Cli {
    #[arg(short, long)]
    name: Option<String>,
}

fn main() {
    let cli = Cli::parse();
    let name = cli.name.unwrap_or_else(|| "World".to_string());
    println!("Hello, {name}!");
}
"#;

/// `Cargo.toml` of a Rust API project.
pub const RUST_API_CARGO_TOML: &'static str = r#"[package]
name = "{project_name}"
version = "0.1.0"
edition = "2021"

[dependencies]
actix-web = "4"
serde = { version = "1", features = ["derive"] }
serde_json = "1"
tokio = { version = "1", features = ["full"] }
thiserror = "2"
"#;

/// `src/main.rs` of a Rust API project.
pub const RUST_API_MAIN_RS: &'static str = r#"use actix_web::{web, App, HttpResponse, HttpServer, Responder};

async fn health() -> impl Responder {
    HttpResponse::Ok().json(serde_json::json!({"status": "ok"}))
}

#[actix_web::main]
async fn main() -> std::io::Result<()> {
    HttpServer::new(|| {
        App::new()
            .route("/health", web::get().to(health))
    })
    .bind("0.0.0.0:8080")?
    .run()
    .await
}
"#;

/// `pyproject.toml` of a FastAPI project.
pub const FASTAPI_PYPROJECT_TOML: &'static str = r#"[project]
name = "{project_name}"
version = "0.1.0"
requires-python = ">=3.11"

[project.dependencies]
fastapi = "*"
uvicorn = "*"

[build-system]
requires = ["setuptools"]
build-backend = "setuptools.build_meta"
"#;

/// `app/main.py` of a FastAPI project.
pub const FASTAPI_MAIN_PY: &'static str = r#"from fastapi import FastAPI

app = FastAPI(title="API", version="0.1.0")


@app.get("/health")
async def health():
    return {"status": "ok"}


if __name__ == "__main__":
    import uvicorn
    uvicorn.run("app.main:app", host="0.0.0.0", port=8000, reload=True)
"#;

/// `manage.py` of a Django project.
pub const DJANGO_MANAGE_PY: &'static str = r#"#!/usr/bin/env python
"""Django management script para {project_name}."""
import os
import sys


def main():
    """Punto de entrada para tareas administrativas de Django."""
    os.environ.setdefault("DJANGO_SETTINGS_MODULE", "{project_name}.settings")
    try:
        from django.core.management import execute_from_command_line
    except ImportError as exc:
        raise ImportError(
            "No se pudo importar Django. Asegúrate de que esté instalado "
            "y disponible en la variable de entorno PYTHONPATH."
        ) from exc
    execute_from_command_line(sys.argv)


if __name__ == "__main__":
    main()
"#;

/// `<name>/settings.py` of a Django project.
pub const DJANGO_SETTINGS_PY: &'static str = r#""""
Configuración de Django para {project_name}.

Usa variables de entorno para configuración sensible (DB, SECRET_KEY).
"""
import os
from pathlib import Path

BASE_DIR = Path(__file__).resolve().parent.parent
SECRET_KEY = os.environ.get("DJANGO_SECRET_KEY", "change-me-in-production")
DEBUG = os.environ.get("DJANGO_DEBUG", "True").lower() in ("true", "1", "yes")

ALLOWED_HOSTS = os.environ.get("DJANGO_ALLOWED_HOSTS", "*").split(",")

INSTALLED_APPS = [
    "django.contrib.admin",
    "django.contrib.auth",
    "django.contrib.contenttypes",
    "django.contrib.sessions",
    "django.contrib.messages",
    "django.contrib.staticfiles",
]

MIDDLEWARE = [
    "django.middleware.security.SecurityMiddleware",
    "django.contrib.sessions.middleware.SessionMiddleware",
    "django.middleware.common.CommonMiddleware",
    "django.middleware.csrf.CsrfViewMiddleware",
    "django.contrib.auth.middleware.AuthenticationMiddleware",
    "django.contrib.messages.middleware.MessageMiddleware",
    "django.middleware.clickjacking.XFrameOptionsMiddleware",
]

ROOT_URLCONF = "{project_name}.urls"

TEMPLATES = [
    {
        "BACKEND": "django.template.backends.django.DjangoTemplates",
        "DIRS": [BASE_DIR / "templates"],
        "APP_DIRS": True,
        "OPTIONS": {
            "context_processors": [
                "django.template.context_processors.debug",
                "django.template.context_processors.request",
                "django.contrib.auth.context_processors.auth",
                "django.contrib.messages.context_processors.messages",
            ],
        },
    },
]

WSGI_APPLICATION = "{project_name}.wsgi.application"

# Base de datos PostgreSQL vía Docker Compose
DATABASES = {
    "default": {
        "ENGINE": "django.db.backends.postgresql",
        "NAME": os.environ.get("POSTGRES_DB", "{project_name}_db"),
        "USER": os.environ.get("POSTGRES_USER", "postgres"),
        "PASSWORD": os.environ.get("POSTGRES_PASSWORD", "postgres"),
        "HOST": os.environ.get("POSTGRES_HOST", "db"),
        "PORT": os.environ.get("POSTGRES_PORT", "5432"),
    }
}

LANGUAGE_CODE = "es"
TIME_ZONE = "America/Caracas"
USE_I18N = True
USE_TZ = True

STATIC_URL = "/static/"
STATIC_ROOT = BASE_DIR / "staticfiles"
STATICFILES_DIRS = [BASE_DIR / "static"]

DEFAULT_AUTO_FIELD = "django.db.models.BigAutoField"
"#;

/// `<name>/urls.py` of a Django project.
pub const DJANGO_URLS_PY: &'static str = r#""""Configuración de URLs para {project_name}."""
from django.contrib import admin
from django.urls import path
from django.http import JsonResponse


def health(request):
    """Endpoint de salud para verificar que la app está corriendo."""
    return JsonResponse({"status": "ok"})


urlpatterns = [
    path("admin/", admin.site.urls),
    path("health/", health, name="health"),
]
"#;

/// `<name>/wsgi.py` of a Django project.
pub const DJANGO_WSGI_PY: &'static str = r#""""Configuración WSGI para {project_name}."""
import os
from django.core.wsgi import get_wsgi_application

os.environ.setdefault("DJANGO_SETTINGS_MODULE", "{project_name}.settings")
application = get_wsgi_application()
"#;

/// `.env.example` of a Django project.
pub const DJANGO_ENV_EXAMPLE: &'static str = r#"# Variables de entorno para {project_name}
DJANGO_SECRET_KEY=change-me-in-production
DJANGO_DEBUG=True
DJANGO_ALLOWED_HOSTS=*
POSTGRES_DB={project_name}_db
POSTGRES_USER=postgres
POSTGRES_PASSWORD=postgres
POSTGRES_HOST=db
POSTGRES_PORT=5432
"#;

/// `package.json` of an Express project.
pub const NODE_PACKAGE_JSON: &'static str = r#"{
  "name": "{project_name}",
  "version": "0.1.0",
  "main": "src/index.js",
  "scripts": {
    "start": "node src/index.js",
    "dev": "node --watch src/index.js",
    "test": "node --test tests/"
  },
  "dependencies": {
    "express": "^4.18.0"
  }
}"#;

/// `src/index.js` of an Express project.
pub const NODE_INDEX_JS: &'static str = r#"const express = require('express');
const app = express();
const PORT = process.env.PORT || 3000;

app.use(express.json());

app.get('/health', (req, res) => {
  res.json({ status: 'ok' });
});

app.listen(PORT, '0.0.0.0', () => {
  console.log(`Server running on port ${PORT}`);
});
"#;

/// Dockerfile of a Rust CLI project.
pub const DOCKERFILE_RUST_CLI: &'static str = r#"# ── Build stage ──
FROM rust:1.83-slim AS builder
WORKDIR /app
COPY . .
RUN cargo build --release

# ── Runtime stage ──
FROM debian:bookworm-slim
RUN apt-get update && apt-get install -y --no-install-recommends ca-certificates \
    && rm -rf /var/lib/apt/lists/*
COPY --from=builder /app/target/release/{project_name} /usr/local/bin/app
CMD ["app"]
"#;

/// Dockerfile of a Rust API project.
pub const DOCKERFILE_RUST_API: &'static str = r#"# ── Build stage ──
FROM rust:1.83-slim AS builder
WORKDIR /app
COPY . .
RUN cargo build --release

# ── Runtime stage ──
FROM debian:bookworm-slim
RUN apt-get update && apt-get install -y --no-install-recommends ca-certificates \
    && rm -rf /var/lib/apt/lists/*
COPY --from=builder /app/target/release/{project_name} /usr/local/bin/app
EXPOSE 8080
CMD ["app"]
"#;

/// Dockerfile of a FastAPI project.
pub const DOCKERFILE_FASTAPI: &'static str = r#"# ── Build stage ──
FROM python:3.12-slim AS builder

WORKDIR /app

# Instalar dependencias Python en un entorno virtual
RUN python -m venv /opt/venv
ENV PATH="/opt/venv/bin:$PATH"
COPY pyproject.toml .
COPY app ./app
RUN pip install --no-cache-dir .

# ── Runtime stage ──
FROM python:3.12-slim

WORKDIR /app
COPY --from=builder /opt/venv /opt/venv
ENV PATH="/opt/venv/bin:$PATH"
COPY . .

EXPOSE 8000
CMD ["uvicorn", "app.main:app", "--host", "0.0.0.0", "--port", "8000"]
"#;

/// Dockerfile of a Django project.
pub const DOCKERFILE_DJANGO: &'static str = r#"# ── Build stage ──
FROM python:3.12-slim AS builder

WORKDIR /app

# Instalar dependencias del sistema para compilar el driver de PostgreSQL
RUN apt-get update && apt-get install -y --no-install-recommends \
    libpq-dev gcc \
    && rm -rf /var/lib/apt/lists/*

# Instalar dependencias Python en un entorno virtual
RUN python -m venv /opt/venv
ENV PATH="/opt/venv/bin:$PATH"
COPY requirements.txt .
RUN pip install --no-cache-dir -r requirements.txt

# ── Runtime stage ──
FROM python:3.12-slim

WORKDIR /app

# Biblioteca cliente de PostgreSQL
RUN apt-get update && apt-get install -y --no-install-recommends \
    libpq5 \
    && rm -rf /var/lib/apt/lists/*

COPY --from=builder /opt/venv /opt/venv
ENV PATH="/opt/venv/bin:$PATH"
COPY . .

# Recolectar archivos estáticos
RUN python manage.py collectstatic --noinput || true

EXPOSE 8000
CMD ["gunicorn", "--bind", "0.0.0.0:8000", "--workers", "3", "--timeout", "120"]
"#;

/// Dockerfile of an Express project.
pub const DOCKERFILE_NODE: &'static str = r#"# ── Build stage ──
FROM node:20-slim AS builder

WORKDIR /app

# Instalar dependencias
COPY package*.json .
RUN npm ci --production

COPY . .

# ── Runtime stage ──
FROM node:20-slim

WORKDIR /app
ENV NODE_ENV=production
COPY --from=builder /app .

EXPOSE 3000
CMD ["node", "src/index.js"]
"#;

/// docker-compose.yml of a Rust CLI project.
pub const COMPOSE_RUST_CLI: &'static str = r#"services:
  app:
    build: .
    container_name: {project_name}
    restart: unless-stopped
    volumes:
      - .:/app
"#;

/// docker-compose.yml of a Rust API project.
pub const COMPOSE_RUST_API: &'static str = r#"services:
  app:
    build: .
    container_name: {project_name}
    ports:
      - "8080:8080"
    restart: unless-stopped
    environment:
      - RUST_LOG=info
    healthcheck:
      test: ["CMD", "curl", "-f", "http://localhost:8080/health"]
      interval: 30s
      timeout: 10s
      retries: 3
"#;

/// docker-compose.yml of a FastAPI project.
pub const COMPOSE_FASTAPI: &'static str = r#"services:
  app:
    build: .
    container_name: {project_name}
    ports:
      - "8000:8000"
    restart: unless-stopped
    volumes:
      - .:/app
    environment:
      - PYTHONDONTWRITEBYTECODE=1
      - PYTHONUNBUFFERED=1
    command: uvicorn app.main:app --host 0.0.0.0 --port 8000 --reload
    healthcheck:
      test: ["CMD", "curl", "-f", "http://localhost:8000/health"]
      interval: 30s
      timeout: 10s
      retries: 3
"#;

/// docker-compose.yml of a Django project (with PostgreSQL).
pub const COMPOSE_DJANGO: &'static str = r#"services:
  # ── Aplicación Django ──
  app:
    build: .
    container_name: {project_name}_app
    ports:
      - "8000:8000"
    restart: unless-stopped
    volumes:
      - .:/app
      - static_data:/app/staticfiles
    environment:
      - DJANGO_SECRET_KEY=${DJANGO_SECRET_KEY:-change-me-in-production}
      - DJANGO_DEBUG=${DJANGO_DEBUG:-True}
      - DJANGO_ALLOWED_HOSTS=${DJANGO_ALLOWED_HOSTS:-*}
      - POSTGRES_DB=${POSTGRES_DB:-{project_name}_db}
      - POSTGRES_USER=${POSTGRES_USER:-postgres}
      - POSTGRES_PASSWORD=${POSTGRES_PASSWORD:-postgres}
      - POSTGRES_HOST=db
      - POSTGRES_PORT=5432
    depends_on:
      db:
        condition: service_healthy
    command: >
      sh -c "python manage.py migrate &&
             python manage.py runserver 0.0.0.0:8000"
    healthcheck:
      test: ["CMD", "curl", "-f", "http://localhost:8000/health/"]
      interval: 30s
      timeout: 10s
      retries: 5

  # ── Base de datos PostgreSQL ──
  db:
    image: postgres:16-alpine
    container_name: {project_name}_db
    restart: unless-stopped
    volumes:
      - postgres_data:/var/lib/postgresql/data
    environment:
      - POSTGRES_DB=${POSTGRES_DB:-{project_name}_db}
      - POSTGRES_USER=${POSTGRES_USER:-postgres}
      - POSTGRES_PASSWORD=${POSTGRES_PASSWORD:-postgres}
    ports:
      - "5432:5432"
    healthcheck:
      test: ["CMD-SHELL", "pg_isready -U postgres"]
      interval: 10s
      timeout: 5s
      retries: 5

volumes:
  postgres_data:
    driver: local
  static_data:
    driver: local
"#;

/// docker-compose.yml of an Express project.
pub const COMPOSE_NODE: &'static str = r#"services:
  app:
    build: .
    container_name: {project_name}
    ports:
      - "3000:3000"
    restart: unless-stopped
    volumes:
      - .:/app
      - /app/node_modules
    environment:
      - NODE_ENV=development
      - PORT=3000
    command: npm run dev
    healthcheck:
      test: ["CMD", "curl", "-f", "http://localhost:3000/health"]
      interval: 30s
      timeout: 10s
      retries: 3
"#;

/// Docker Compose targets shared by every Makefile.
pub const MAKEFILE_DOCKER_TARGETS: &'static str = r#"
# ── Docker Compose ──
up:
	docker compose up -d --build

down:
	docker compose down

logs:
	docker compose logs -f

restart:
	docker compose restart

clean-docker:
	docker compose down -v --rmi local
"#;

/// Makefile targets of the Rust projects.
pub const MAKEFILE_RUST: &'static str = r#".PHONY: build dev test lint up down logs restart clean-docker

# ── Desarrollo local ──
build:
	cargo build --release

dev:
	cargo run

test:
	cargo test

lint:
	cargo clippy --all-targets --all-features -- -D warnings

clean:
	cargo clean
"#;

/// Makefile targets of a FastAPI project.
pub const MAKEFILE_FASTAPI: &'static str = r#".PHONY: build dev test lint up down logs restart clean-docker

# ── Desarrollo local ──
build:
	docker compose build

dev:
	uvicorn app.main:app --reload --port 8000

test:
	pytest tests/

lint:
	ruff check .
"#;

/// Makefile targets of a Django project.
pub const MAKEFILE_DJANGO: &'static str = r#".PHONY: build dev test lint migrate shell up down logs restart clean-docker

# ── Desarrollo local ──
build:
	docker compose build

dev:
	python manage.py runserver 0.0.0.0:8000

test:
	python manage.py test

lint:
	ruff check .

migrate:
	python manage.py migrate

makemigrations:
	python manage.py makemigrations

shell:
	python manage.py shell

createsuperuser:
	python manage.py createsuperuser

collectstatic:
	python manage.py collectstatic --noinput
"#;

/// Makefile targets of an Express project.
pub const MAKEFILE_NODE: &'static str = r#".PHONY: build install dev start test up down logs restart clean-docker

# ── Desarrollo local ──
build:
	docker compose build

install:
	npm install

dev:
	npm run dev

start:
	npm start

test:
	npm test
"#;

/// `requirements.txt` of a Django project.
pub const DJANGO_REQUIREMENTS: &'static str = "django>=5.0\ngunicorn>=22.0\npsycopg2-binary>=2.9\ndjango-environ>=0.11\n";

/// README of every project.
pub const README_MD: &'static str = "# {project_name}\n\n## Inicio rápido\n\n```bash\ndocker compose up --build\n```\n\n## Desarrollo\n\n```bash\nmake dev\n```\n";

/// .gitignore entries shared by every project.
pub const GITIGNORE_COMMON: &'static str = "# IDE\n.vscode/\n.idea/\n*.swp\n*.swo\n\n# OS\n.DS_Store\nThumbs.db\n\n# Docker\n.docker/\n\n# Environment\n.env\n\n";

/// .gitignore entries of the Rust projects.
pub const GITIGNORE_RUST: &'static str = "/target\nCargo.lock\n";

/// .gitignore entries of a FastAPI project.
pub const GITIGNORE_FASTAPI: &'static str = "__pycache__/\n*.pyc\n.venv/\n*.egg-info/\ndist/\n";

/// .gitignore entries of a Django project.
pub const GITIGNORE_DJANGO: &'static str = "__pycache__/\n*.pyc\n.venv/\n*.egg-info/\ndist/\nstaticfiles/\ndb.sqlite3\nmedia/\n";

/// .gitignore entries of an Express project.
pub const GITIGNORE_NODE: &'static str = "node_modules/\ndist/\n";

} // verus!
