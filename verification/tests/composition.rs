use near_macros::{init_macro, require, Capability, InitElement, InitError, RequireError};

fn names(list: &[&str]) -> Vec<String> {
    list.iter().map(|name| name.to_string()).collect()
}

fn text(value: &str) -> InitElement {
    InitElement::Str(value.to_string())
}

#[test]
fn require_selects_in_the_order_of_the_names() {
    assert_eq!(
        require(&names(&["Access", "Pausable"])),
        Ok(vec![Capability::Access, Capability::Pausable])
    );
    assert_eq!(
        require(&names(&["Pausable", "Access"])),
        Ok(vec![Capability::Pausable, Capability::Access])
    );
    assert_eq!(require(&names(&["Pausable"])), Ok(vec![Capability::Pausable]));
}

#[test]
fn require_ignores_case() {
    assert_eq!(require(&names(&["ACCESS"])), Ok(vec![Capability::Access]));
    assert_eq!(require(&names(&["access"])), Ok(vec![Capability::Access]));
    assert_eq!(require(&names(&["pAuSaBlE"])), Ok(vec![Capability::Pausable]));
}

#[test]
fn require_keeps_a_component_named_twice() {
    assert_eq!(
        require(&names(&["Access", "access"])),
        Ok(vec![Capability::Access, Capability::Access])
    );
}

#[test]
fn require_refuses_an_empty_list() {
    assert_eq!(require(&Vec::new()), Err(RequireError::NothingRequested));
    assert_eq!(
        RequireError::NothingRequested.message(),
        "Please specify macros you want to import."
    );
}

#[test]
fn require_refuses_an_unknown_name() {
    assert_eq!(require(&names(&["Access", "Ownable"])), Err(RequireError::UnknownMacro));
    assert_eq!(require(&names(&[""])), Err(RequireError::UnknownMacro));
    assert_eq!(require(&names(&["access "])), Err(RequireError::UnknownMacro));
    assert_eq!(RequireError::UnknownMacro.message(), "There is no such macro");
}

#[test]
fn capability_names_are_matched_letter_for_letter() {
    assert_eq!(Capability::from_name(&"access".to_string()), Some(Capability::Access));
    assert_eq!(Capability::from_name(&"pausable".to_string()), Some(Capability::Pausable));
    assert_eq!(Capability::from_name(&"Access".to_string()), None);
    assert_eq!(Capability::from_name(&"".to_string()), None);
    assert_eq!(Capability::from_name(&"pausable ".to_string()), None);
}

#[test]
fn init_macro_selects_what_the_strings_name() {
    assert_eq!(
        init_macro(&vec![text("access"), text("pausable"), InitElement::Struct(1)]),
        Ok(vec![Capability::Access, Capability::Pausable])
    );
    assert_eq!(
        init_macro(&vec![text("pausable"), InitElement::Struct(3)]),
        Ok(vec![Capability::Pausable])
    );
    assert_eq!(init_macro(&vec![InitElement::Struct(1)]), Ok(vec![]));
    assert_eq!(
        init_macro(&vec![InitElement::Struct(0), text("access"), InitElement::Struct(2)]),
        Ok(vec![Capability::Access])
    );
}

#[test]
fn init_macro_refuses_an_empty_list() {
    assert_eq!(init_macro(&Vec::new()), Err(InitError::EmptyArray));
    assert_eq!(InitError::EmptyArray.message(), "Array cannot be empty");
}

#[test]
fn init_macro_asks_for_a_struct_with_fields_at_the_end() {
    assert_eq!(init_macro(&vec![text("access")]), Err(InitError::LastNotStruct));
    assert_eq!(
        init_macro(&vec![InitElement::Struct(1), text("access")]),
        Err(InitError::LastNotStruct)
    );
    assert_eq!(init_macro(&vec![InitElement::Other]), Err(InitError::LastNotStruct));
    assert_eq!(
        init_macro(&vec![text("access"), InitElement::Struct(0)]),
        Err(InitError::EmptyStruct)
    );
    assert_eq!(InitError::LastNotStruct.message(), "The last element has to be struct");
    assert_eq!(InitError::EmptyStruct.message(), "Struct cannot be empty");
}

#[test]
fn init_macro_refuses_what_is_no_literal_before_it_reads_the_literals() {
    assert_eq!(
        init_macro(&vec![InitElement::Literal, InitElement::Other, InitElement::Struct(1)]),
        Err(InitError::NotLiteral)
    );
    assert_eq!(
        init_macro(&vec![text("ownable"), InitElement::Other, InitElement::Struct(1)]),
        Err(InitError::NotLiteral)
    );
    assert_eq!(InitError::NotLiteral.message(), "Please include only literals");
}

#[test]
fn init_macro_reports_the_first_faulty_literal() {
    assert_eq!(
        init_macro(&vec![text("access"), InitElement::Literal, text("ownable"), InitElement::Struct(1)]),
        Err(InitError::NotStr)
    );
    assert_eq!(
        init_macro(&vec![text("ownable"), InitElement::Literal, InitElement::Struct(1)]),
        Err(InitError::UnknownMacro)
    );
    assert_eq!(
        init_macro(&vec![text("Access"), InitElement::Struct(1)]),
        Err(InitError::UnknownMacro)
    );
    assert_eq!(init_macro(&vec![text(""), InitElement::Struct(1)]), Err(InitError::UnknownMacro));
    assert_eq!(InitError::NotStr.message(), "Only &str type is accepted");
    assert_eq!(InitError::UnknownMacro.message(), "Macro does not exist");
}
