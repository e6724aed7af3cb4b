use ravix::inject::{parse_inject_parens, InjectOptions};
use ravix::routes::{classify_attribute, plan_attributes, route_factory_name, route_path, type_ident_fragment, HttpVerb, MethodAttribute};

fn name_of(o: &InjectOptions) -> Option<&str> {
    match o {
        InjectOptions::Named(n) | InjectOptions::OptionalNamed(n) => Some(n.as_str()),
        _ => None,
    }
}

#[test]
fn inject_without_arguments_is_required() {
    assert!(matches!(parse_inject_parens(""), InjectOptions::Required));
    assert!(matches!(parse_inject_parens("  ,  "), InjectOptions::Required));
    assert!(matches!(parse_inject_parens("whatever"), InjectOptions::Required));
}

#[test]
fn inject_optional_and_named() {
    assert!(matches!(parse_inject_parens("optional"), InjectOptions::Optional));
    let n = parse_inject_parens("name = \"redis\"");
    assert!(matches!(n, InjectOptions::Named(_)));
    assert_eq!(name_of(&n), Some("redis"));
    let t = parse_inject_parens("name=\"memory\"");
    assert_eq!(name_of(&t), Some("memory"));
    let both = parse_inject_parens("optional, name = \"redis\"");
    assert!(matches!(both, InjectOptions::OptionalNamed(_)));
    assert_eq!(name_of(&both), Some("redis"));
}

#[test]
fn inject_later_name_wins() {
    let n = parse_inject_parens("name = \"a\" , name = \"b\"");
    assert_eq!(name_of(&n), Some("b"));
    let open = parse_inject_parens("name = \"unterminated");
    assert_eq!(name_of(&open), Some("unterminated"));
}

#[test]
fn attributes_are_classified() {
    assert!(matches!(classify_attribute("get"), MethodAttribute::Route(HttpVerb::Get)));
    assert!(matches!(classify_attribute("post"), MethodAttribute::Route(HttpVerb::Post)));
    assert!(matches!(classify_attribute("put"), MethodAttribute::Route(HttpVerb::Put)));
    assert!(matches!(classify_attribute("delete"), MethodAttribute::Route(HttpVerb::Delete)));
    assert!(matches!(classify_attribute("patch"), MethodAttribute::Route(HttpVerb::Patch)));
    assert!(matches!(classify_attribute("middleware"), MethodAttribute::Middleware));
    assert!(matches!(classify_attribute("doc"), MethodAttribute::Other));
    assert!(matches!(classify_attribute("GET"), MethodAttribute::Other));
    assert_eq!(HttpVerb::Delete.as_str(), "DELETE");
    assert_eq!(HttpVerb::Get.as_str(), "GET");
}

#[test]
fn factory_names_are_sanitised() {
    assert_eq!(type_ident_fragment("crate :: users :: UserController"), "crate_users_UserController");
    assert_eq!(type_ident_fragment("a::b"), "a_b");
    assert_eq!(route_factory_name("UserController", "get_user", 1), "__ravix_route_UserController_get_user_1");
    assert_eq!(route_factory_name("m :: C", "f", 12), "__ravix_route_m_C_f_12");
}

#[test]
fn route_paths_join_prefix_base_and_path() {
    assert_eq!(route_path(None, "/users", "/"), "/users");
    assert_eq!(route_path(None, "/users", "/:id"), "/users/:id");
    assert_eq!(route_path(Some("/api/"), "/posts/", "/:post_id/comments"), "/api/posts/:post_id/comments");
    assert_eq!(route_path(Some("/api//"), "/", "/"), "/api");
    assert_eq!(route_path(None, "/", "/"), "/");
    assert_eq!(route_path(None, "", "/health"), "/health");
}

#[test]
fn method_attributes_are_planned() {
    let names: Vec<String> = ["doc", "middleware", "get", "allow", "middleware", "post"]
        .iter()
        .map(|s| s.to_string())
        .collect();
    let plan = plan_attributes(&names);
    assert!(matches!(plan.route, Some((5, HttpVerb::Post))));
    assert_eq!(plan.middleware, vec![1, 4]);
    assert_eq!(plan.kept, vec![0, 3]);
    let none = plan_attributes(&vec!["doc".to_string()]);
    assert!(none.route.is_none());
    assert!(none.middleware.is_empty());
    assert_eq!(none.kept, vec![0]);
}
