//! Which components a host is composed of.
//!
//! A host names the components that it wants, once where its type is
//! declared and once where a value of it is built. Both lists are checked
//! here; what is done with the components that they select is the
//! composing code's concern.

use vstd::prelude::*;
use vstd::string::*;

verus! {

/// The name of the role registry among the components.
pub const ACCESS: &'static str = "access";

/// The name of the pause gate among the components.
pub const PAUSABLE: &'static str = "pausable";

/// A component that a host can carry.
#[derive(Debug, Clone, Copy, PartialEq, Eq, Structural)]
pub enum Capability {
    /// The role registry.
    Access,
    /// The pause gate.
    Pausable,
}

/// Why a list of components named where a host's type is declared was
/// refused.
#[derive(Debug, Clone, Copy, PartialEq, Eq, Structural)]
pub enum RequireError {
    /// The list is empty.
    NothingRequested,
    /// A name in the list is the name of no component.
    UnknownMacro,
}

/// One expression of the list that a host's value is built from.
#[derive(Debug, PartialEq, Eq)]
pub enum InitElement {
    /// A string literal, with its value.
    Str(String),
    /// A literal that is no string.
    Literal,
    /// A struct expression, with the number of its fields.
    Struct(usize),
    /// Any other expression.
    Other,
}

/// Why a list that a host's value is built from was refused.
#[derive(Debug, Clone, Copy, PartialEq, Eq, Structural)]
pub enum InitError {
    /// The list is empty.
    EmptyArray,
    /// The last expression is a struct expression without fields.
    EmptyStruct,
    /// The last expression is no struct expression.
    LastNotStruct,
    /// An expression is neither a literal nor a struct expression.
    NotLiteral,
    /// A literal is no string.
    NotStr,
    /// A string is the name of no component.
    UnknownMacro,
}

/// What `str::to_lowercase` makes of a text.
pub uninterp spec fn lowercase_of(text: Seq<char>) -> Seq<char>;

/// `str::to_lowercase` of std: a new string that holds the lowercase
/// equivalent of `text`. The result depends on the text alone; nothing
/// else is claimed of it.
#[verifier::external_body]
fn to_lowercase(text: &String) -> (lowered: String)
    ensures
        lowered@ == lowercase_of(text@),
{
    text.to_lowercase()
}

impl Capability {
    /// The component that `name` is the name of, letter for letter.
    pub open spec fn named(name: Seq<char>) -> Option<Capability> {
        if name == ACCESS@ {
            Some(Capability::Access)
        } else if name == PAUSABLE@ {
            Some(Capability::Pausable)
        } else {
            None
        }
    }

    /// The component that `name` is the name of, letter for letter: the
    /// role registry for `access`, the pause gate for `pausable`, none for
    /// any other text.
    pub fn from_name(name: &String) -> (capability: Option<Capability>)
        ensures
            capability == Capability::named(name@),
    {
        if *name == ACCESS.to_owned() {
            Some(Capability::Access)
        } else if *name == PAUSABLE.to_owned() {
            Some(Capability::Pausable)
        } else {
            None
        }
    }
}

/// Each component is selected by its own name.
pub proof fn lemma_names_select_their_components()
    ensures
        Capability::named(ACCESS@) == Some(Capability::Access),
        Capability::named(PAUSABLE@) == Some(Capability::Pausable),
{
    reveal_strlit("access");
    reveal_strlit("pausable");
    assert(ACCESS@.len() == 6);
    assert(PAUSABLE@.len() == 8);
}

impl RequireError {
    /// The text that describes the refusal.
    pub fn message(&self) -> (text: String)
        ensures
            text@ == (match self {
                RequireError::NothingRequested => "Please specify macros you want to import."@,
                RequireError::UnknownMacro => "There is no such macro"@,
            }),
    {
        match self {
            RequireError::NothingRequested => "Please specify macros you want to import.".to_owned(),
            RequireError::UnknownMacro => "There is no such macro".to_owned(),
        }
    }
}

impl InitError {
    /// The text that describes the refusal.
    pub fn message(&self) -> (text: String)
        ensures
            text@ == (match self {
                InitError::EmptyArray => "Array cannot be empty"@,
                InitError::EmptyStruct => "Struct cannot be empty"@,
                InitError::LastNotStruct => "The last element has to be struct"@,
                InitError::NotLiteral => "Please include only literals"@,
                InitError::NotStr => "Only &str type is accepted"@,
                InitError::UnknownMacro => "Macro does not exist"@,
            }),
    {
        match self {
            InitError::EmptyArray => "Array cannot be empty".to_owned(),
            InitError::EmptyStruct => "Struct cannot be empty".to_owned(),
            InitError::LastNotStruct => "The last element has to be struct".to_owned(),
            InitError::NotLiteral => "Please include only literals".to_owned(),
            InitError::NotStr => "Only &str type is accepted".to_owned(),
            InitError::UnknownMacro => "Macro does not exist".to_owned(),
        }
    }
}

/// The component that a name selects where a host's type is declared: the
/// one that the name is the name of once it is put in lower case.
pub open spec fn required(name: Seq<char>) -> Option<Capability> {
    Capability::named(lowercase_of(name))
}

/// The components that the names of a host's declaration select, one for
/// each name and in the order of the names, whatever their case. A
/// component that is named twice is selected twice. The list is refused
/// where it is empty and where one of the names selects nothing.
pub fn require(names: &Vec<String>) -> (outcome: Result<Vec<Capability>, RequireError>)
    ensures
        (match outcome {
            Ok(selected) => {
                &&& names.len() > 0
                &&& selected.len() == names.len()
                &&& forall|i: int|
                    0 <= i < names.len() ==> required(#[trigger] names[i]@) == Some(selected[i])
            },
            Err(RequireError::NothingRequested) => names.len() == 0,
            Err(RequireError::UnknownMacro) => exists|i: int|
                0 <= i < names.len() && required(#[trigger] names[i]@) is None,
        }),
{
    if names.len() == 0 {
        return Err(RequireError::NothingRequested);
    }
    let mut selected: Vec<Capability> = Vec::new();
    let mut i: usize = 0;
    while i < names.len()
        invariant
            i <= names.len(),
            selected.len() == i,
            forall|j: int| 0 <= j < i ==> required(#[trigger] names[j]@) == Some(selected[j]),
        decreases names.len() - i,
    {
        let lowered = to_lowercase(&names[i]);
        match Capability::from_name(&lowered) {
            Some(capability) => {
                selected.push(capability);
            },
            None => {
                return Err(RequireError::UnknownMacro);
            },
        }
        i += 1;
    }
    Ok(selected)
}

/// What is wrong with one expression of a host's list, taken as a literal:
/// a literal that is no string, or a string that names no component.
pub open spec fn fault_of(element: InitElement) -> Option<InitError> {
    match element {
        InitElement::Str(name) => if Capability::named(name@) is None {
            Some(InitError::UnknownMacro)
        } else {
            None
        },
        InitElement::Literal => Some(InitError::NotStr),
        _ => None,
    }
}

/// The component that one expression of a host's list selects: the one
/// that a string names.
pub open spec fn selection_of(element: InitElement) -> Option<Capability> {
    match element {
        InitElement::Str(name) => Capability::named(name@),
        _ => None,
    }
}

/// The components that the expressions of a host's list select, in the
/// order of the expressions.
pub open spec fn selection(elements: Seq<InitElement>) -> Seq<Capability> {
    elements.filter_map(|element: InitElement| selection_of(element))
}

/// Whether a host's list has the shape asked for: a struct expression with
/// a field at its end, and before that nothing but literals and struct
/// expressions.
pub open spec fn well_shaped(elements: Seq<InitElement>) -> bool {
    &&& elements.len() > 0
    &&& elements.last() is Struct
    &&& elements.last()->Struct_0 > 0
    &&& forall|i: int| 0 <= i < elements.len() ==> !(#[trigger] elements[i] is Other)
}

/// The components that the list of a host's value selects: one for each
/// string in it, in their order, where each string is the name of a
/// component, letter for letter.
///
/// The list is refused, with the first of these that applies: where it is
/// empty; where its last expression is no struct expression, or one
/// without fields; where an expression is neither a literal nor a struct
/// expression; and for the first literal that is no string or names no
/// component. Struct expressions before the last one select nothing.
pub fn init_macro(elements: &Vec<InitElement>) -> (outcome: Result<Vec<Capability>, InitError>)
    ensures
        (match outcome {
            Ok(selected) => {
                &&& well_shaped(elements@)
                &&& forall|i: int|
                    0 <= i < elements.len() ==> fault_of(#[trigger] elements[i]) is None
                &&& selected@ == selection(elements@)
            },
            Err(InitError::EmptyArray) => elements.len() == 0,
            Err(InitError::LastNotStruct) => elements.len() > 0 && !(elements@.last() is Struct),
            Err(InitError::EmptyStruct) => elements.len() > 0 && elements@.last() is Struct
                && elements@.last()->Struct_0 == 0,
            Err(InitError::NotLiteral) => {
                &&& elements.len() > 0
                &&& elements@.last() is Struct
                &&& elements@.last()->Struct_0 > 0
                &&& exists|i: int| 0 <= i < elements.len() && #[trigger] elements[i] is Other
            },
            Err(error) => {
                &&& well_shaped(elements@)
                &&& exists|i: int|
                    {
                        &&& 0 <= i < elements.len()
                        &&& fault_of(#[trigger] elements[i]) == Some(error)
                        &&& forall|j: int| 0 <= j < i ==> fault_of(#[trigger] elements[j]) is None
                    }
            },
        }),
{
    if elements.len() == 0 {
        return Err(InitError::EmptyArray);
    }
    match &elements[elements.len() - 1] {
        InitElement::Struct(fields) => {
            if *fields == 0 {
                return Err(InitError::EmptyStruct);
            }
        },
        _ => {
            return Err(InitError::LastNotStruct);
        },
    }
    let mut i: usize = 0;
    while i < elements.len()
        invariant
            i <= elements.len(),
            elements.len() > 0,
            elements@.last() is Struct,
            elements@.last()->Struct_0 > 0,
            forall|j: int| 0 <= j < i ==> !(#[trigger] elements[j] is Other),
        decreases elements.len() - i,
    {
        match &elements[i] {
            InitElement::Other => {
                return Err(InitError::NotLiteral);
            },
            _ => {},
        }
        i += 1;
    }
    let mut selected: Vec<Capability> = Vec::new();
    let mut k: usize = 0;
    while k < elements.len()
        invariant
            k <= elements.len(),
            well_shaped(elements@),
            forall|j: int| 0 <= j < k ==> fault_of(#[trigger] elements[j]) is None,
            selected@ == selection(elements@.take(k as int)),
        decreases elements.len() - k,
    {
        proof {
            elements@.lemma_filter_map_take_succ(
                |element: InitElement| selection_of(element),
                k as int,
            );
        }
        match &elements[k] {
            InitElement::Str(name) => {
                match Capability::from_name(name) {
                    Some(capability) => {
                        selected.push(capability);
                    },
                    None => {
                        return Err(InitError::UnknownMacro);
                    },
                }
            },
            InitElement::Literal => {
                return Err(InitError::NotStr);
            },
            _ => {},
        }
        k += 1;
    }
    assert(elements@.take(k as int) =~= elements@);
    Ok(selected)
}

} // verus!
