use ravix::expand::{
    expand_controller, expand_injectable, AttrForm, AttrModel, ExpandError, FieldAttr, FieldModel,
    ImplModel, InjectableError, ItemModel, MethodModel, StructModel,
};

fn attr(name: &str, text: &str, literal: Option<&str>, path: Option<&str>) -> AttrModel {
    AttrModel {
        name: name.to_string(),
        text: text.to_string(),
        literal: literal.map(|s| s.to_string()),
        path: path.map(|s| s.to_string()),
    }
}

fn controller() -> ImplModel {
    ImplModel {
        header: "impl UserController".to_string(),
        self_ty: "UserController".to_string(),
        items: vec![
            ItemModel::Method(MethodModel {
                name: "get_user".to_string(),
                attrs: vec![
                    attr("doc", "# [doc = \" get\"]", None, None),
                    attr("get", "# [get (\"/:id\")]", Some("/:id"), None),
                    attr("middleware", "# [middleware (auth_guard)]", None, Some("auth_guard")),
                ],
                rest: "pub async fn get_user (& self , id : Path < String >) -> Response { Response :: new () }".to_string(),
                has_self: true,
                arg_types: vec!["Path < String >".to_string()],
            }),
            ItemModel::Other("const X : u8 = 1 ;".to_string()),
            ItemModel::Method(MethodModel {
                name: "health".to_string(),
                attrs: vec![attr("post", "# [post (\"/\\\"q\\\"\")]", Some("/\"q\""), None)],
                rest: "async fn health () -> & 'static str { \"ok\" }".to_string(),
                has_self: false,
                arg_types: vec![],
            }),
            ItemModel::Method(MethodModel {
                name: "helper".to_string(),
                attrs: vec![],
                rest: "fn helper (& self) { }".to_string(),
                has_self: true,
                arg_types: vec![],
            }),
        ],
    }
}

#[test]
fn controller_expansion_is_exact() {
    let text = expand_controller("/users", &controller()).ok().unwrap();
    let expected = [
        "impl UserController { ",
        "# [doc = \" get\"] pub async fn get_user (& self , id : Path < String >) -> Response { Response :: new () } ",
        "const X : u8 = 1 ; ",
        "async fn health () -> & 'static str { \"ok\" } ",
        "fn helper (& self) { } ",
        "} ",
        "#[allow(non_snake_case)] fn __ravix_route_UserController_get_user_0(_c: &::ravix_app::framework::ContainerRef) -> ::axum::routing::MethodRouter<::ravix_app::framework::ContainerRef> { ",
        "{ async fn __wrapper(::ravix_app::framework::Inject(__ctrl): ::ravix_app::framework::Inject<::std::sync::Arc<UserController>>, __arg0: Path < String >, ) -> impl ::axum::response::IntoResponse { __ctrl.get_user(__arg0, ).await } ::axum::routing::get(__wrapper) }",
        ".route_layer(::axum::middleware::from_fn(auth_guard))",
        " } ::inventory::submit!(::ravix_app::framework::RouteDescriptor { method: \"GET\", base_path: \"/users\", path: \"/:id\", handler: __ravix_route_UserController_get_user_0, }); ",
        "#[allow(non_snake_case)] fn __ravix_route_UserController_health_1(_c: &::ravix_app::framework::ContainerRef) -> ::axum::routing::MethodRouter<::ravix_app::framework::ContainerRef> { ",
        "::axum::routing::post(UserController::health)",
        " } ::inventory::submit!(::ravix_app::framework::RouteDescriptor { method: \"POST\", base_path: \"/users\", path: \"/\\\"q\\\"\", handler: __ravix_route_UserController_health_1, }); ",
    ]
    .concat();
    assert_eq!(text, expected);
    assert!(syn::parse_file(&text).is_ok());
}

#[test]
fn controller_attributes_without_arguments_are_refused() {
    let mut m = controller();
    if let ItemModel::Method(method) = &mut m.items[0] {
        method.attrs[1].literal = None;
    }
    assert!(matches!(expand_controller("/", &m), Err(ExpandError::RouteNeedsPath(ref n)) if n == "get_user"));
    let mut m = controller();
    if let ItemModel::Method(method) = &mut m.items[0] {
        method.attrs[2].path = None;
    }
    assert!(matches!(expand_controller("/", &m), Err(ExpandError::MiddlewareNeedsPath(ref n)) if n == "get_user"));
}

fn field(name: &str, ty: &str, inner: Option<&str>, attrs: Vec<FieldAttr>) -> FieldModel {
    FieldModel {
        name: name.to_string(),
        ty: ty.to_string(),
        option_inner: inner.map(|s| s.to_string()),
        attrs,
        rest: format!("pub {} : {}", name, ty),
    }
}

fn inject(form: AttrForm, text: &str) -> FieldAttr {
    FieldAttr { ident: Some("inject".to_string()), text: text.to_string(), form }
}

#[test]
fn injectable_expansion_is_exact() {
    let m = StructModel {
        name: "Svc".to_string(),
        header: "pub struct Svc".to_string(),
        fields: Some(vec![
            field("repo", "Arc < Repo >", None, vec![inject(AttrForm::Bare, "# [inject]")]),
            field(
                "cache",
                "Option < Arc < Cache > >",
                Some("Arc < Cache >"),
                vec![
                    FieldAttr { ident: Some("doc".to_string()), text: "# [doc = \" c\"]".to_string(), form: AttrForm::Other },
                    inject(AttrForm::List("optional".to_string()), "# [inject (optional)]"),
                ],
            ),
            field("named", "Arc < Cache >", None, vec![inject(AttrForm::List("name = \"redis\"".to_string()), "# [inject (name = \"redis\")]")]),
            field(
                "backup",
                "Option < Arc < Cache > >",
                Some("Arc < Cache >"),
                vec![inject(AttrForm::List("optional , name = \"disk\"".to_string()), "# [inject (optional , name = \"disk\")]")],
            ),
            field("count", "u32", None, vec![]),
        ]),
        whole: String::new(),
    };
    let text = expand_injectable(&m).ok().unwrap();
    let expected = [
        "pub struct Svc { pub repo : Arc < Repo >, # [doc = \" c\"] pub cache : Option < Arc < Cache > >, pub named : Arc < Cache >, pub backup : Option < Arc < Cache > >, pub count : u32, } ",
        "impl ::ravix::container::Injectable<::ravix_app::framework::AnyInstance> for Svc { fn construct(container: &::ravix_app::framework::DiContainer) -> ::std::sync::Arc<Self> { ::std::sync::Arc::new(Self { ",
        "repo: ::ravix_app::framework::ContainerExt::resolve_typed::<Arc < Repo >>(container), ",
        "cache: ::ravix_app::framework::ContainerExt::try_resolve_typed::<Arc < Cache >>(container), ",
        "named: ::ravix_app::framework::ContainerExt::resolve_named_typed::<Arc < Cache >>(container, \"redis\"), ",
        "backup: ::ravix_app::framework::ContainerExt::try_resolve_named_typed::<Arc < Cache >>(container, \"disk\"), ",
        "count: ::std::default::Default::default(), ",
        "}) } }",
        " ::inventory::submit!(::ravix_app::framework::BindingCheck { type_text: \"Arc < Repo >\", ",
        "check: |c: &::ravix_app::framework::DiContainer| ::ravix_app::framework::ContainerExt::check_binding::<Arc < Repo >>(c, \"Arc < Repo >\"), });",
    ]
    .concat();
    assert_eq!(text, expected);
    assert!(syn::parse_file(&text).is_ok());
}

#[test]
fn optional_injection_needs_an_option_field() {
    let m = StructModel {
        name: "Svc".to_string(),
        header: "struct Svc".to_string(),
        fields: Some(vec![field("x", "u8", None, vec![inject(AttrForm::List("optional".to_string()), "# [inject (optional)]")])]),
        whole: String::new(),
    };
    let err = expand_injectable(&m).err().unwrap();
    assert!(matches!(err, InjectableError::OptionalNeedsOption(ref t) if t == "u8"));
    assert_eq!(
        err.message(),
        "#[inject(optional)] requires the field type to be Option<...>, but `u8` is not Option"
    );
    let named = StructModel {
        name: "Svc".to_string(),
        header: "struct Svc".to_string(),
        fields: Some(vec![field(
            "x",
            "Arc < Cache >",
            None,
            vec![inject(AttrForm::List("optional , name = \"disk\"".to_string()), "# [inject (optional , name = \"disk\")]")],
        )]),
        whole: String::new(),
    };
    let err = expand_injectable(&named).err().unwrap();
    assert!(matches!(err, InjectableError::OptionalNamedNeedsOption(ref t) if t == "Arc < Cache >"));
    assert_eq!(
        err.message(),
        "#[inject(optional, name = \"...\")] requires the field type to be Option<...>, but `Arc < Cache >` is not Option"
    );
    let unit = StructModel { name: "U".to_string(), header: String::new(), fields: None, whole: "struct U ;".to_string() };
    assert!(expand_injectable(&unit).ok().unwrap().starts_with("struct U ; impl ::ravix::container::Injectable"));
}
