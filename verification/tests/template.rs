use scaffolder::template::{
    get_main_content, lookup, supported_frameworks, Dependency, Framework, FrameworkSpec,
};

const AXUM: &str = "use axum::{routing::get, Router};\n\n#[tokio::main]\nasync fn main() {\n    let app = Router::new().route(\"/\", get(|| async { \"Hello from Axum!\" }));\n    let listener = tokio::net::TcpListener::bind(\"127.0.0.1:3000\").await.unwrap();\n    println!(\"Listening on http://127.0.0.1:3000\");\n    axum::serve(listener, app).await.unwrap();\n}\n";

const ACTIX: &str = "use actix_web::{get, App, HttpServer, Responder, HttpResponse};\n\n#[get(\"/\")]\nasync fn index() -> impl Responder {\n    HttpResponse::Ok().body(\"Hello from Actix-web!\")\n}\n\n#[actix_web::main]\nasync fn main() -> std::io::Result<()> {\n    println!(\"Listening on http://127.0.0.1:3000\");\n    HttpServer::new(|| App::new().service(index))\n        .bind(\"127.0.0.1:3000\")?\n        .run()\n        .await\n}\n";

const HELLO: &str = "fn main() {\n    println!(\"Hello, world!\");\n}\n";

fn dependency(name: &str, feature: &str) -> Dependency {
    Dependency { name: name.to_string(), feature: Some(feature.to_string()) }
}

#[test]
fn main_content_of_axum_is_the_axum_template() {
    assert_eq!(get_main_content("axum"), AXUM);
}

#[test]
fn main_content_of_actix_web_is_the_actix_template() {
    assert_eq!(get_main_content("actix-web"), ACTIX);
}

#[test]
fn main_content_of_anything_else_is_hello_world() {
    assert_eq!(get_main_content("rocket"), HELLO);
    assert_eq!(get_main_content(""), HELLO);
    assert_eq!(get_main_content("default"), HELLO);
}

#[test]
fn identifiers_are_matched_exactly() {
    assert_eq!(get_main_content("Axum"), HELLO);
    assert_eq!(get_main_content("axum "), HELLO);
    assert_eq!(get_main_content("actix_web"), HELLO);
    assert_eq!(get_main_content("actix"), HELLO);
    assert_eq!(Framework::from_identifier("AXUM"), Framework::Fallback);
}

#[test]
fn every_supported_framework_has_a_body_and_the_async_runtime() {
    for identifier in supported_frameworks() {
        let spec = lookup(identifier);
        assert_eq!(spec.identifier, identifier);
        assert!(!spec.main_source_body.is_empty());
        assert!(spec.extra_dependencies.contains(&dependency("tokio", "full")));
        assert!(spec.extra_dependencies.contains(&dependency("serde", "derive")));
    }
}

#[test]
fn lookup_of_axum_is_the_whole_entry() {
    assert_eq!(
        lookup("axum"),
        FrameworkSpec {
            identifier: "axum".to_string(),
            main_source_body: AXUM.to_string(),
            extra_dependencies: vec![dependency("serde", "derive"), dependency("tokio", "full")],
        }
    );
}

#[test]
fn lookup_of_actix_web_is_the_whole_entry() {
    assert_eq!(
        lookup("actix-web"),
        FrameworkSpec {
            identifier: "actix-web".to_string(),
            main_source_body: ACTIX.to_string(),
            extra_dependencies: vec![dependency("serde", "derive"), dependency("tokio", "full")],
        }
    );
}

#[test]
fn lookup_of_an_unrecognized_identifier_is_the_default_entry() {
    let expected = FrameworkSpec {
        identifier: "default".to_string(),
        main_source_body: HELLO.to_string(),
        extra_dependencies: vec![],
    };
    assert_eq!(lookup("rocket"), expected);
    assert_eq!(lookup("warp"), expected);
    assert_eq!(lookup(""), expected);
}

#[test]
fn lookup_gives_the_same_entry_every_time() {
    assert_eq!(lookup("rocket"), lookup("rocket"));
    assert_eq!(lookup("axum"), lookup("axum"));
    assert_eq!(lookup("actix-web"), lookup("actix-web"));
}

#[test]
fn entries_are_selected_by_identifier() {
    assert_eq!(Framework::from_identifier("axum"), Framework::Axum);
    assert_eq!(Framework::from_identifier("actix-web"), Framework::ActixWeb);
    assert_eq!(Framework::from_identifier("tide"), Framework::Fallback);
}

#[test]
fn entry_methods_agree_with_lookup() {
    for identifier in ["axum", "actix-web", "poem"] {
        let framework = Framework::from_identifier(identifier);
        let spec = lookup(identifier);
        assert_eq!(framework.main_content(), spec.main_source_body);
        assert_eq!(framework.extra_dependencies(), spec.extra_dependencies);
        assert_eq!(framework.table_entry(), spec);
    }
}

#[test]
fn fallback_asks_for_no_extra_dependency() {
    assert!(Framework::Fallback.extra_dependencies().is_empty());
    assert!(lookup("gotham").extra_dependencies.is_empty());
}

#[test]
fn only_frameworks_with_a_template_are_listed() {
    assert_eq!(supported_frameworks(), vec!["axum", "actix-web"]);
}

#[test]
fn a_copy_of_a_dependency_is_equal_to_it() {
    let value = dependency("tokio", "full");
    assert_eq!(value.clone(), value);
    let bare = Dependency { name: "dotenvy".to_string(), feature: None };
    assert_eq!(bare.clone(), bare);
}
