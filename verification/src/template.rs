//! The table of starter templates, keyed by framework identifier.
//!
//! The table is closed: one entry for each framework with a template of its
//! own, and one fallback entry that every other identifier maps to.

use vstd::prelude::*;
use vstd::string::*;
use crate::text::same_text;

verus! {

/// Starter source for a project built on axum.
pub const AXUM_MAIN: &'static str = r#"use axum::{routing::get, Router};

#[tokio::main]
async fn main() {
    let app = Router::new().route("/", get(|| async { "Hello from Axum!" }));
    let listener = tokio::net::TcpListener::bind("127.0.0.1:3000").await.unwrap();
    println!("Listening on http://127.0.0.1:3000");
    axum::serve(listener, app).await.unwrap();
}
"#;

/// Starter source for a project built on actix-web.
pub const ACTIX_WEB_MAIN: &'static str = r#"use actix_web::{get, App, HttpServer, Responder, HttpResponse};

#[get("/")]
async fn index() -> impl Responder {
    HttpResponse::Ok().body("Hello from Actix-web!")
}

#[actix_web::main]
async fn main() -> std::io::Result<()> {
    println!("Listening on http://127.0.0.1:3000");
    HttpServer::new(|| App::new().service(index))
        .bind("127.0.0.1:3000")?
        .run()
        .await
}
"#;

/// Starter source for every other project.
pub const FALLBACK_MAIN: &'static str = r#"fn main() {
    println!("Hello, world!");
}
"#;

/// The entries of the template table.
#[derive(Clone, Copy, Debug, PartialEq, Eq, Structural)]
pub enum Framework {
    Axum,
    ActixWeb,
    /// Stands for every identifier without a template of its own.
    Fallback,
}

/// A package to depend on, with the feature to switch on, if any.
#[derive(Debug, PartialEq, Eq)]
pub struct Dependency {
    pub name: String,
    pub feature: Option<String>,
}

pub struct DependencyView {
    pub name: Seq<char>,
    pub feature: Option<Seq<char>>,
}

impl View for Dependency {
    type V = DependencyView;

    open spec fn view(&self) -> DependencyView {
        DependencyView { name: self.name@, feature: self.feature.deep_view() }
    }
}

impl DeepView for Dependency {
    type V = DependencyView;

    open spec fn deep_view(&self) -> DependencyView {
        self@
    }
}

impl Clone for Dependency {
    fn clone(&self) -> (copy: Self)
        ensures
            copy@ == self@,
    {
        Dependency {
            name: self.name.clone(),
            feature: match &self.feature {
                Some(feature) => Some(feature.clone()),
                None => None,
            },
        }
    }
}

/// What the table holds for one framework.
#[derive(Debug, PartialEq, Eq)]
pub struct FrameworkSpec {
    pub identifier: String,
    pub main_source_body: String,
    pub extra_dependencies: Vec<Dependency>,
}

pub struct FrameworkSpecView {
    pub identifier: Seq<char>,
    pub main_source_body: Seq<char>,
    pub extra_dependencies: Seq<DependencyView>,
}

impl View for FrameworkSpec {
    type V = FrameworkSpecView;

    open spec fn view(&self) -> FrameworkSpecView {
        FrameworkSpecView {
            identifier: self.identifier@,
            main_source_body: self.main_source_body@,
            extra_dependencies: self.extra_dependencies.deep_view(),
        }
    }
}

/// The identifiers that have a template of their own, in the order in which
/// they are listed to the user.
pub open spec fn supported_identifiers() -> Seq<Seq<char>> {
    seq!["axum"@, "actix-web"@]
}

/// Whether `identifier` has a template of its own.
pub open spec fn is_supported(identifier: Seq<char>) -> bool {
    supported_identifiers().contains(identifier)
}

/// The table entry that `identifier` selects.
pub open spec fn classify(identifier: Seq<char>) -> Framework {
    if identifier == "axum"@ {
        Framework::Axum
    } else if identifier == "actix-web"@ {
        Framework::ActixWeb
    } else {
        Framework::Fallback
    }
}

/// The serialization library, with its derive feature.
pub open spec fn serde_derive() -> DependencyView {
    DependencyView { name: "serde"@, feature: Some("derive"@) }
}

/// The async runtime, with its full feature set.
pub open spec fn tokio_full() -> DependencyView {
    DependencyView { name: "tokio"@, feature: Some("full"@) }
}

impl Framework {
    /// The name under which the entry stands in the table.
    pub open spec fn name(self) -> Seq<char> {
        match self {
            Framework::Axum => "axum"@,
            Framework::ActixWeb => "actix-web"@,
            Framework::Fallback => "default"@,
        }
    }

    /// The source that the entry's main file starts out with.
    pub open spec fn body(self) -> Seq<char> {
        match self {
            Framework::Axum => AXUM_MAIN@,
            Framework::ActixWeb => ACTIX_WEB_MAIN@,
            Framework::Fallback => FALLBACK_MAIN@,
        }
    }

    /// The packages that the entry's source needs besides the framework.
    pub open spec fn requirements(self) -> Seq<DependencyView> {
        match self {
            Framework::Axum => seq![serde_derive(), tokio_full()],
            Framework::ActixWeb => seq![serde_derive(), tokio_full()],
            Framework::Fallback => Seq::empty(),
        }
    }

    /// The whole entry.
    pub open spec fn entry(self) -> FrameworkSpecView {
        FrameworkSpecView {
            identifier: self.name(),
            main_source_body: self.body(),
            extra_dependencies: self.requirements(),
        }
    }

    /// Selects the entry for a framework identifier. Never fails: an
    /// identifier without a template of its own selects the fallback.
    pub fn from_identifier(identifier: &str) -> (framework: Framework)
        ensures
            framework == classify(identifier@),
            framework != Framework::Fallback <==> is_supported(identifier@),
    {
        proof {
            lemma_supported_means_not_fallback(identifier@);
        }
        if same_text(identifier, "axum") {
            Framework::Axum
        } else if same_text(identifier, "actix-web") {
            Framework::ActixWeb
        } else {
            Framework::Fallback
        }
    }

    /// The entry's main source file.
    pub fn main_content(self) -> (content: &'static str)
        ensures
            content@ == self.body(),
            content@.len() > 0,
    {
        proof {
            lemma_body_is_not_empty(self);
        }
        match self {
            Framework::Axum => AXUM_MAIN,
            Framework::ActixWeb => ACTIX_WEB_MAIN,
            Framework::Fallback => FALLBACK_MAIN,
        }
    }

    /// The packages to add besides the framework itself, in the order in
    /// which they are added.
    pub fn extra_dependencies(self) -> (dependencies: Vec<Dependency>)
        ensures
            dependencies.deep_view() == self.requirements(),
    {
        let mut dependencies: Vec<Dependency> = Vec::new();
        match self {
            Framework::Fallback => {},
            _ => {
                dependencies.push(
                    Dependency { name: "serde".to_owned(), feature: Some("derive".to_owned()) },
                );
                dependencies.push(
                    Dependency { name: "tokio".to_owned(), feature: Some("full".to_owned()) },
                );
            },
        }
        assert(dependencies.deep_view() =~= self.requirements());
        dependencies
    }

    /// The whole entry, as owned values.
    pub fn table_entry(self) -> (spec: FrameworkSpec)
        ensures
            spec@ == self.entry(),
    {
        let identifier = match self {
            Framework::Axum => "axum",
            Framework::ActixWeb => "actix-web",
            Framework::Fallback => "default",
        };
        FrameworkSpec {
            identifier: identifier.to_owned(),
            main_source_body: self.main_content().to_owned(),
            extra_dependencies: self.extra_dependencies(),
        }
    }
}

/// An identifier selects an entry of its own exactly if it is one of the
/// supported identifiers.
pub proof fn lemma_supported_means_not_fallback(identifier: Seq<char>)
    ensures
        classify(identifier) != Framework::Fallback <==> is_supported(identifier),
        is_supported(identifier) ==> classify(identifier).name() == identifier,
{
    let listed = supported_identifiers();
    assert(listed[0] == "axum"@);
    assert(listed[1] == "actix-web"@);
}

/// No entry of the table has an empty main source file.
pub proof fn lemma_body_is_not_empty(framework: Framework)
    ensures
        framework.body().len() > 0,
{
    reveal_strlit(r#"use axum::{routing::get, Router};

#[tokio::main]
async fn main() {
    let app = Router::new().route("/", get(|| async { "Hello from Axum!" }));
    let listener = tokio::net::TcpListener::bind("127.0.0.1:3000").await.unwrap();
    println!("Listening on http://127.0.0.1:3000");
    axum::serve(listener, app).await.unwrap();
}
"#);
    reveal_strlit(r#"use actix_web::{get, App, HttpServer, Responder, HttpResponse};

#[get("/")]
async fn index() -> impl Responder {
    HttpResponse::Ok().body("Hello from Actix-web!")
}

#[actix_web::main]
async fn main() -> std::io::Result<()> {
    println!("Listening on http://127.0.0.1:3000");
    HttpServer::new(|| App::new().service(index))
        .bind("127.0.0.1:3000")?
        .run()
        .await
}
"#);
    reveal_strlit(r#"fn main() {
    println!("Hello, world!");
}
"#);
}

/// The entry that a framework identifier selects.
pub open spec fn template_for(identifier: Seq<char>) -> FrameworkSpecView {
    classify(identifier).entry()
}

/// The entry that every identifier without a template of its own selects.
pub open spec fn default_template() -> FrameworkSpecView {
    Framework::Fallback.entry()
}

/// Looks a framework identifier up in the template table.
///
/// The result is a function of the identifier alone. A supported identifier
/// gets its own entry, under its own name, with a main source file that is
/// not empty and with the serialization library and the async runtime among
/// its extra dependencies. Every other identifier gets the one fallback
/// entry, which asks for no extra dependency.
pub fn lookup(framework_identifier: &str) -> (spec: FrameworkSpec)
    ensures
        spec@ == template_for(framework_identifier@),
        spec@.main_source_body.len() > 0,
        is_supported(framework_identifier@) ==> {
            &&& spec@.identifier == framework_identifier@
            &&& spec@.extra_dependencies == seq![serde_derive(), tokio_full()]
            &&& spec@.extra_dependencies.contains(serde_derive())
            &&& spec@.extra_dependencies.contains(tokio_full())
        },
        !is_supported(framework_identifier@) ==> {
            &&& spec@ == default_template()
            &&& spec@.extra_dependencies.len() == 0
        },
{
    proof {
        lemma_supported_means_not_fallback(framework_identifier@);
        lemma_body_is_not_empty(classify(framework_identifier@));
        let both = seq![serde_derive(), tokio_full()];
        assert(both[0] == serde_derive());
        assert(both[1] == tokio_full());
    }
    Framework::from_identifier(framework_identifier).table_entry()
}

/// The main source file for a framework identifier: the template of the
/// identifier where it has one, the fallback otherwise.
pub fn get_main_content(framework: &str) -> (content: &'static str)
    ensures
        content@ == template_for(framework@).main_source_body,
        content@.len() > 0,
{
    Framework::from_identifier(framework).main_content()
}

/// The identifiers to show when the user asks for the available frameworks.
/// The fallback entry is not among them.
pub fn supported_frameworks() -> (identifiers: Vec<&'static str>)
    ensures
        identifiers.deep_view() == supported_identifiers(),
{
    let mut identifiers: Vec<&'static str> = Vec::new();
    identifiers.push("axum");
    identifiers.push("actix-web");
    assert(identifiers.deep_view() =~= supported_identifiers());
    identifiers
}

} // verus!
