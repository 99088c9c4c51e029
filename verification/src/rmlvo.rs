//! The names by which a keymap is chosen (rules, model, layout, variant and
//! options) and how they are gathered from a keyboard configuration file
//! and from environment variables.

use crate::pattern::{first_group, regex_first_group};
use crate::text::{contains_nul, first_field, leading_field, split_lines, text_lines};
use vstd::prelude::*;
use vstd::string::group_string_axioms;

verus! {

broadcast use group_string_axioms;

pub const RULES_PATTERN: &'static str = r#"\s*XKBRULES\s*="(.+)""#;

pub const MODEL_PATTERN: &'static str = r#"\s*XKBMODEL\s*="(.+)""#;

pub const LAYOUT_PATTERN: &'static str = r#"\s*XKBLAYOUT\s*="(.+)""#;

pub const VARIANT_PATTERN: &'static str = r#"\s*XKBVARIANT\s*="(.+)""#;

pub const OPTIONS_PATTERN: &'static str = r#"\s*XKBOPTIONS\s*="(.+)""#;

pub const RULES_VARIABLE: &'static str = "XKB_DEFAULT_RULES";

pub const MODEL_VARIABLE: &'static str = "XKB_DEFAULT_MODEL";

pub const LAYOUT_VARIABLE: &'static str = "XKB_DEFAULT_LAYOUT";

pub const VARIANT_VARIABLE: &'static str = "XKB_DEFAULT_VARIANT";

pub const OPTIONS_VARIABLE: &'static str = "XKB_DEFAULT_OPTIONS";

/// One of the five names of a keymap identity.
#[derive(Clone, Copy, Debug, PartialEq, Eq, Structural)]
pub enum Component {
    Rules,
    Model,
    Layout,
    Variant,
    Options,
}

impl Component {
    /// The regular expression whose first group is this component's value
    /// in a line of the configuration file.
    pub open spec fn spec_file_pattern(self) -> Seq<char> {
        match self {
            Component::Rules => RULES_PATTERN@,
            Component::Model => MODEL_PATTERN@,
            Component::Layout => LAYOUT_PATTERN@,
            Component::Variant => VARIANT_PATTERN@,
            Component::Options => OPTIONS_PATTERN@,
        }
    }

    /// The environment variable that sets this component.
    pub open spec fn spec_variable(self) -> Seq<char> {
        match self {
            Component::Rules => RULES_VARIABLE@,
            Component::Model => MODEL_VARIABLE@,
            Component::Layout => LAYOUT_VARIABLE@,
            Component::Variant => VARIANT_VARIABLE@,
            Component::Options => OPTIONS_VARIABLE@,
        }
    }

    pub fn file_pattern(self) -> (pattern: &'static str)
        ensures
            pattern@ == self.spec_file_pattern(),
    {
        match self {
            Component::Rules => RULES_PATTERN,
            Component::Model => MODEL_PATTERN,
            Component::Layout => LAYOUT_PATTERN,
            Component::Variant => VARIANT_PATTERN,
            Component::Options => OPTIONS_PATTERN,
        }
    }

    pub fn variable(self) -> (name: &'static str)
        ensures
            name@ == self.spec_variable(),
    {
        match self {
            Component::Rules => RULES_VARIABLE,
            Component::Model => MODEL_VARIABLE,
            Component::Layout => LAYOUT_VARIABLE,
            Component::Variant => VARIANT_VARIABLE,
            Component::Options => OPTIONS_VARIABLE,
        }
    }
}


/// The five names as plain texts: what the contracts say of an [`Rmlvo`].
pub struct Names {
    pub rules: Seq<char>,
    pub model: Seq<char>,
    pub layout: Seq<char>,
    pub variant: Seq<char>,
    pub options: Option<Seq<char>>,
}

impl Names {
    /// Four empty names and no options: every choice is left to the engine.
    pub open spec fn empty() -> Names {
        Names {
            rules: Seq::empty(),
            model: Seq::empty(),
            layout: Seq::empty(),
            variant: Seq::empty(),
            options: None,
        }
    }

    /// These names with `component` set to `value`.
    pub open spec fn with(self, component: Component, value: Seq<char>) -> Names {
        match component {
            Component::Rules => Names { rules: value, ..self },
            Component::Model => Names { model: value, ..self },
            Component::Layout => Names { layout: value, ..self },
            Component::Variant => Names { variant: value, ..self },
            Component::Options => Names { options: Some(value), ..self },
        }
    }

    /// These names with `component` set where `setting` holds a value.
    pub open spec fn overridden(self, component: Component, setting: Option<Seq<char>>) -> Names {
        match setting {
            Some(value) => self.with(component, value),
            None => self,
        }
    }

    /// These names with every component set for which `settings` holds a
    /// value.
    pub open spec fn overridden_by(self, settings: spec_fn(Component) -> Option<Seq<char>>) -> Names {
        self.overridden(Component::Rules, settings(Component::Rules)).overridden(
            Component::Model,
            settings(Component::Model),
        ).overridden(Component::Layout, settings(Component::Layout)).overridden(
            Component::Variant,
            settings(Component::Variant),
        ).overridden(Component::Options, settings(Component::Options))
    }

    /// Whether rules, model, layout or variant holds a NUL character. Such a
    /// name cannot be handed to a keymap compiler as a C string. The options
    /// are cut at a NUL instead, so they do not count.
    pub open spec fn holds_nul(self) -> bool {
        self.rules.contains('\0') || self.model.contains('\0') || self.layout.contains('\0')
            || self.variant.contains('\0')
    }
}

/// What a captured group sets `component` to: the group itself, and for the
/// layout only the first of a comma-separated list.
pub open spec fn file_value(component: Component, captured: Option<Seq<char>>) -> Option<
    Seq<char>,
> {
    match captured {
        Some(value) => Some(
            if component == Component::Layout {
                first_field(value)
            } else {
                value
            },
        ),
        None => None,
    }
}

/// What one line of the configuration file sets `component` to.
pub open spec fn line_setting(line: Seq<char>, component: Component) -> Option<Seq<char>> {
    file_value(component, regex_first_group(component.spec_file_pattern(), line))
}

/// What the configuration file sets `component` to: the setting of the
/// last line that has one.
pub open spec fn file_setting(lines: Seq<Seq<char>>, component: Component) -> Option<Seq<char>>
    decreases lines.len(),
{
    if lines.len() == 0 {
        None
    } else {
        match line_setting(lines.last(), component) {
            Some(value) => Some(value),
            None => file_setting(lines.drop_last(), component),
        }
    }
}

/// What the environment sets `component` to: the value of the last
/// variable that bears the component's name.
pub open spec fn environment_setting(
    variables: Seq<(Seq<char>, Seq<char>)>,
    component: Component,
) -> Option<Seq<char>>
    decreases variables.len(),
{
    if variables.len() == 0 {
        None
    } else if variables.last().0 == component.spec_variable() {
        Some(variables.last().1)
    } else {
        environment_setting(variables.drop_last(), component)
    }
}

/// `base`, overridden by what the lines of a configuration file set.
pub open spec fn names_from_file(base: Names, lines: Seq<Seq<char>>) -> Names {
    base.overridden_by(|component: Component| file_setting(lines, component))
}

/// `base`, overridden by what the environment sets.
pub open spec fn names_from_environment(
    base: Names,
    variables: Seq<(Seq<char>, Seq<char>)>,
) -> Names {
    base.overridden_by(|component: Component| environment_setting(variables, component))
}

/// The names that a configuration file (if one could be read) and the
/// environment give: the environment overrides the file, the file
/// overrides the empty names.
pub open spec fn detected_names(
    file_data: Option<Seq<char>>,
    variables: Seq<(Seq<char>, Seq<char>)>,
) -> Names {
    let from_file = match file_data {
        Some(text) => names_from_file(Names::empty(), text_lines(text)),
        None => Names::empty(),
    };
    names_from_environment(from_file, variables)
}

/// No two components are set by the same environment variable.
pub proof fn lemma_variables_differ(a: Component, b: Component)
    requires
        a != b,
    ensures
        a.spec_variable() != b.spec_variable(),
{
    reveal_strlit("XKB_DEFAULT_RULES");
    reveal_strlit("XKB_DEFAULT_MODEL");
    reveal_strlit("XKB_DEFAULT_LAYOUT");
    reveal_strlit("XKB_DEFAULT_VARIANT");
    reveal_strlit("XKB_DEFAULT_OPTIONS");
    assert(RULES_VARIABLE@[12] == 'R');
    assert(MODEL_VARIABLE@[12] == 'M');
    assert(LAYOUT_VARIABLE@[12] == 'L');
    assert(VARIANT_VARIABLE@[12] == 'V');
    assert(OPTIONS_VARIABLE@[12] == 'O');
}

/// Rules, model, layout, variant and options: the identity of a keymap.
#[derive(Debug, Clone)]
pub struct Rmlvo {
    rules: String,
    model: String,
    layout: String,
    variant: String,
    options: Option<String>,
}

impl View for Rmlvo {
    type V = Names;

    closed spec fn view(&self) -> Names {
        Names {
            rules: self.rules@,
            model: self.model@,
            layout: self.layout@,
            variant: self.variant@,
            options: self.options.deep_view(),
        }
    }
}

impl Default for Rmlvo {
    fn default() -> (names: Rmlvo)
        ensures
            names@ == Names::empty(),
    {
        Rmlvo {
            rules: String::new(),
            model: String::new(),
            layout: String::new(),
            variant: String::new(),
            options: None,
        }
    }
}

impl Component {
    /// The component that the environment variable `name` sets.
    pub fn by_variable(name: &String) -> (found: Option<Component>)
        ensures
            match found {
                Some(component) => name@ == component.spec_variable(),
                None => forall|component: Component| name@ != component.spec_variable(),
            },
    {
        if *name == String::from_str(RULES_VARIABLE) {
            Some(Component::Rules)
        } else if *name == String::from_str(MODEL_VARIABLE) {
            Some(Component::Model)
        } else if *name == String::from_str(LAYOUT_VARIABLE) {
            Some(Component::Layout)
        } else if *name == String::from_str(VARIANT_VARIABLE) {
            Some(Component::Variant)
        } else if *name == String::from_str(OPTIONS_VARIABLE) {
            Some(Component::Options)
        } else {
            None
        }
    }
}

impl Rmlvo {
    /// The names that the keyboard configuration file and the environment
    /// give. `file_data` is the file's text, `None` where it could not be
    /// read; `variables` are the environment's variables, name and value.
    pub fn new(file_data: Option<&str>, variables: &Vec<(String, String)>) -> (names: Rmlvo)
        ensures
            names@ == detected_names(file_data.deep_view(), variables.deep_view()),
    {
        let mut names = Rmlvo::default();
        match file_data {
            Some(text) => names.detect_from_etc_default_keyboard(text),
            None => {},
        }
        names.detect_from_env(variables);
        names
    }

    /// The identity with exactly these names.
    pub fn from_names(
        rules: String,
        model: String,
        layout: String,
        variant: String,
        options: Option<String>,
    ) -> (names: Rmlvo)
        ensures
            names@ == (Names {
                rules: rules@,
                model: model@,
                layout: layout@,
                variant: variant@,
                options: options.deep_view(),
            }),
    {
        Rmlvo { rules, model, layout, variant, options }
    }

    /// A copy of these names with another layout.
    pub fn with_layout(&self, layout: String) -> (names: Rmlvo)
        ensures
            names@ == self@.with(Component::Layout, layout@),
    {
        Rmlvo {
            rules: self.rules.clone(),
            model: self.model.clone(),
            layout,
            variant: self.variant.clone(),
            options: match &self.options {
                Some(options) => Some(options.clone()),
                None => None,
            },
        }
    }

    /// Sets one component.
    pub fn set(&mut self, component: Component, value: String)
        ensures
            final(self)@ == old(self)@.with(component, value@),
    {
        match component {
            Component::Rules => {
                self.rules = value;
            },
            Component::Model => {
                self.model = value;
            },
            Component::Layout => {
                self.layout = value;
            },
            Component::Variant => {
                self.variant = value;
            },
            Component::Options => {
                self.options = Some(value);
            },
        }
    }

    /// Takes over what a line of the configuration file says of
    /// `component`: `captured` is the first group of the component's
    /// pattern in that line, `None` where the line does not match.
    pub fn apply_file_setting(&mut self, component: Component, captured: Option<String>)
        ensures
            final(self)@ == old(self)@.overridden(
                component,
                file_value(component, captured.deep_view()),
            ),
    {
        match captured {
            Some(value) => {
                match component {
                    Component::Layout => {
                        let first = leading_field(value.as_str());
                        self.set(component, first);
                    },
                    _ => {
                        self.set(component, value);
                    },
                }
            },
            None => {},
        }
    }

    /// Takes over what one line of the configuration file sets.
    fn detect_from_line(&mut self, line: &str)
        ensures
            final(self)@ == old(self)@.overridden_by(
                |component: Component| line_setting(line@, component),
            ),
    {
        self.apply_file_setting(
            Component::Rules,
            first_group(Component::Rules.file_pattern(), line),
        );
        self.apply_file_setting(
            Component::Model,
            first_group(Component::Model.file_pattern(), line),
        );
        self.apply_file_setting(
            Component::Layout,
            first_group(Component::Layout.file_pattern(), line),
        );
        self.apply_file_setting(
            Component::Variant,
            first_group(Component::Variant.file_pattern(), line),
        );
        self.apply_file_setting(
            Component::Options,
            first_group(Component::Options.file_pattern(), line),
        );
    }

    /// Overrides the names by what `file_data`, the text of a keyboard
    /// configuration file, sets. A line sets a component where the
    /// component's pattern matches it; of several such lines the last one
    /// counts.
    pub fn detect_from_etc_default_keyboard(&mut self, file_data: &str)
        ensures
            final(self)@ == names_from_file(old(self)@, text_lines(file_data@)),
    {
        let lines = split_lines(file_data);
        let ghost all = lines.deep_view();
        let mut i: usize = 0;
        while i < lines.len()
            invariant
                i <= lines.len(),
                all == lines.deep_view(),
                self@ == names_from_file(old(self)@, all.take(i as int)),
            decreases lines.len() - i,
        {
            let line = lines[i].as_str();
            self.detect_from_line(line);
            proof {
                let done = all.take(i + 1);
                assert(done.last() == line@);
                assert(done.drop_last() =~= all.take(i as int));
            }
            i += 1;
        }
        proof {
            assert(all.take(i as int) =~= all);
        }
    }

    /// Overrides the names by what the environment sets: `variables` holds
    /// name and value of each variable. Of several variables with one name
    /// the last one counts.
    pub fn detect_from_env(&mut self, variables: &Vec<(String, String)>)
        ensures
            final(self)@ == names_from_environment(old(self)@, variables.deep_view()),
    {
        let ghost all = variables.deep_view();
        let mut i: usize = 0;
        while i < variables.len()
            invariant
                i <= variables.len(),
                all == variables.deep_view(),
                self@ == names_from_environment(old(self)@, all.take(i as int)),
            decreases variables.len() - i,
        {
            let name = &variables[i].0;
            let value = &variables[i].1;
            proof {
                let done = all.take(i + 1);
                assert(done.last() == (name@, value@));
                assert(done.drop_last() =~= all.take(i as int));
            }
            match Component::by_variable(name) {
                Some(component) => {
                    proof {
                        lemma_variables_differ_from(component);
                    }
                    self.set(component, value.clone());
                },
                None => {},
            }
            i += 1;
        }
        proof {
            assert(all.take(i as int) =~= all);
        }
    }

    pub fn rules(&self) -> (rules: &String)
        ensures
            rules@ == self@.rules,
    {
        &self.rules
    }

    pub fn model(&self) -> (model: &String)
        ensures
            model@ == self@.model,
    {
        &self.model
    }

    pub fn layout(&self) -> (layout: &String)
        ensures
            layout@ == self@.layout,
    {
        &self.layout
    }

    pub fn variant(&self) -> (variant: &String)
        ensures
            variant@ == self@.variant,
    {
        &self.variant
    }

    pub fn options(&self) -> (options: &Option<String>)
        ensures
            options.deep_view() == self@.options,
    {
        &self.options
    }

    /// Whether rules, model, layout or variant holds a NUL character.
    pub fn holds_nul(&self) -> (found: bool)
        ensures
            found == self@.holds_nul(),
    {
        contains_nul(self.rules.as_str()) || contains_nul(self.model.as_str()) || contains_nul(
            self.layout.as_str(),
        ) || contains_nul(self.variant.as_str())
    }
}

/// Every other component is set by another variable than `component` is.
proof fn lemma_variables_differ_from(component: Component)
    ensures
        forall|other: Component|
            other != component ==> #[trigger] other.spec_variable() != component.spec_variable(),
{
    assert forall|other: Component| other != component implies #[trigger] other.spec_variable()
        != component.spec_variable() by {
        lemma_variables_differ(other, component);
    }
}

} // verus!
