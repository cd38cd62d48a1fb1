use dsh::api::{
    create_about, create_generic_capability, create_generic_capability_selector_command, create_long_about,
    find_method_descriptor, MethodDescriptor, MethodParameter,
};

fn descriptor(path: &str, description: Option<&str>, parameters: Vec<(&str, &str, Option<&str>)>, body: Option<&str>, response: Option<&str>) -> MethodDescriptor {
    MethodDescriptor {
        path: path.to_string(),
        description: description.map(|d| d.to_string()),
        parameters: parameters
            .into_iter()
            .map(|(n, t, d)| MethodParameter { name: n.to_string(), parameter_type: t.to_string(), description: d.map(|d| d.to_string()) })
            .collect(),
        body_type: body.map(|b| b.to_string()),
        response_type: response.map(|r| r.to_string()),
    }
}

#[test]
fn about_is_first_sentence() {
    assert_eq!(create_about("List all secrets. Returns their identifiers."), "List all secrets");
    assert_eq!(create_about("Show the configuration..."), "Show the configuration");
    assert_eq!(create_about("No sentence end"), "No sentence end");
    assert_eq!(create_about(""), "");
    assert_eq!(create_about("Version 1.2 of it. More."), "Version 1.2 of it");
}

#[test]
fn long_about_for_get_without_parameters() {
    let d = descriptor("/allocation/{tenant}/secret", Some("List secrets."), vec![], None, Some("Vec<String>"));
    assert_eq!(create_long_about("get", &d, "List secrets."), "GET /allocation/{tenant}/secret\nList secrets.\nReturns a list of identifiers.");
    let d = descriptor("/p", Some("Get it."), vec![], None, Some("String"));
    assert_eq!(create_long_about("get", &d, "Get it."), "GET /p\nGet it.\nReturns a string.");
    let d = descriptor("/p", Some("Get it."), vec![], None, Some("Secret"));
    assert_eq!(create_long_about("get", &d, "Get it."), "GET /p\nGet it.\nReturns a formatted Secret.");
    let d = descriptor("/p", Some("Get it."), vec![], None, None);
    assert_eq!(create_long_about("get", &d, "Get it."), "GET /p\nGet it.\n");
}

#[test]
fn long_about_with_parameters_and_body() {
    let d = descriptor(
        "/allocation/{tenant}/secret/{id}",
        Some("Update."),
        vec![("id", "&str", Some("Secret name")), ("count", "&u64", None)],
        Some("Secret"),
        Some("the secret is updated"),
    );
    assert_eq!(
        create_long_about("put", &d, "Update."),
        "PUT /allocation/{tenant}/secret/{id}\nUpdate.\nParameters:\n- id: Secret name\n- count:  (string representing a u64)\n\
         Requires string data representing a Secret. This string data can either be piped from another application, \
         redirected from a file or provided by the user interactively. Returns ok when the secret is updated."
    );
    let d = descriptor("/s", Some("Put."), vec![], Some("String"), Some("done"));
    assert_eq!(
        create_long_about("post", &d, "Put."),
        "POST /s\nPut.\nRequires a string. This string can either be piped from another application, redirected from a file \
         or provided by the user interactively. Returns ok when done."
    );
}

#[test]
fn find_method_descriptor_falls_back_to_first() {
    let descriptors = vec![
        ("first".to_string(), descriptor("/first", None, vec![], None, None)),
        ("second".to_string(), descriptor("/second", None, vec![], None, None)),
    ];
    assert_eq!(find_method_descriptor(&descriptors, "second").map(|d| d.path.clone()), Some("/second".to_string()));
    assert_eq!(find_method_descriptor(&descriptors, "missing").map(|d| d.path.clone()), Some("/first".to_string()));
    assert!(find_method_descriptor(&vec![], "any").is_none());
}

#[test]
fn selector_command_arguments_are_upper_case() {
    let d = descriptor("/app/{appId}", Some("Show app. Details."), vec![("app_id", "&str", Some("App id")), ("vhost", "&str", None)], None, Some("App"));
    let c = create_generic_capability_selector_command("get", "app", &d);
    assert_eq!(c.name, "app");
    assert_eq!(c.alias, "/app/{appId}");
    assert_eq!(c.about, Some("Show app".to_string()));
    assert_eq!(c.long_about, Some("GET /app/{appId}\nShow app. Details.\nParameters:\n- app_id: App id\n- vhost: \nReturns a formatted App.".to_string()));
    assert_eq!(c.arguments.len(), 2);
    assert_eq!(c.arguments[0].name, "app_id");
    assert_eq!(c.arguments[0].value_name, "APP_ID");
    assert_eq!(c.arguments[0].help, Some("App id".to_string()));
    assert_eq!(c.arguments[1].value_name, "VHOST");
    assert_eq!(c.arguments[1].help, None);
}

#[test]
fn selector_command_without_description_has_no_help() {
    let d = descriptor("/x", None, vec![], None, None);
    let c = create_generic_capability_selector_command("delete", "x", &d);
    assert_eq!(c.about, None);
    assert_eq!(c.long_about, None);
}

#[test]
fn generic_capability_has_a_command_per_selector() {
    let descriptors = vec![
        ("a".to_string(), descriptor("/a", Some("A."), vec![], None, None)),
        ("b".to_string(), descriptor("/b", None, vec![], None, None)),
    ];
    let c = create_generic_capability("delete", "Delete", "Delete things", &descriptors);
    assert_eq!(c.command, "delete");
    assert_eq!(c.about, "Delete");
    assert_eq!(c.long_about, "Delete things");
    assert_eq!(c.subcommands.iter().map(|s| s.name.clone()).collect::<Vec<_>>(), vec!["a".to_string(), "b".to_string()]);
    assert_eq!(c.subcommands[0].long_about, Some("DELETE /a\nA.\n".to_string()));
}

#[test]
fn upper_case_keeps_other_characters() {
    let d = descriptor("/x", None, vec![("é_z-9a", "&str", None)], None, None);
    let c = create_generic_capability_selector_command("get", "x", &d);
    assert_eq!(c.arguments[0].value_name, "é_z-9a".to_ascii_uppercase());
    assert_eq!(c.arguments[0].value_name, "é_Z-9A");
}
