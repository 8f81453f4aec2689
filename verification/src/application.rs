//! The application: the state, its transition function `update`, and its
//! renderer `view`. `update` is total over the closed message set, performs
//! no I/O itself — pending work is described by the returned command, and the
//! one document-level side effect is described by the returned effect list —
//! and fully replaces the prior state. `view` is a total, pure function of
//! the state alone.

use vstd::prelude::*;

use crate::msg::{effects_view, Command, Effect, EffectV, Msg, MsgV};
use crate::person::{card_v, person_of, Person, PersonV};
use crate::theme::{dropdown_v, theme_name, Theme, ThemeMsg};
use crate::view::{attrs_view, lemma_nodes_v, nodes_v, Attr, AttrV, AttrValueV, ElementV, Node, NodeV};

verus! {

/// The application state: the active theme, the name being typed, and the
/// gallery records.
#[derive(Debug, PartialEq)]
pub struct App {
    theme: Theme,
    name: String,
    people: Vec<Person>,
}

/// The mathematical value of the application state.
#[verifier::ext_equal]
pub struct AppV {
    pub theme: Theme,
    pub name: Seq<char>,
    pub people: Seq<PersonV>,
}

/// The values of a sequence of persons, in order.
pub open spec fn people_view(s: Seq<Person>) -> Seq<PersonV> {
    Seq::new(s.len(), |i: int| s[i]@)
}

impl App {
    /// The mathematical value of the state. (Not vstd's `View`: that trait's
    /// method would collide with the application's own `view`.)
    pub closed spec fn abs(&self) -> AppV {
        AppV { theme: self.theme, name: self.name@, people: people_view(self.people@) }
    }
}

/// The initial state: the dark theme, an empty name, and four seeded
/// records.
pub open spec fn init_v() -> AppV {
    AppV {
        theme: Theme::Dark,
        name: Seq::empty(),
        people: seq![
            person_of("Detective Popcorn"@, Theme::Cyberpunk),
            person_of("Blaze"@, Theme::Lofi),
            person_of("Lazer"@, Theme::Aqua),
            person_of("Blazer"@, Theme::Synthwave),
        ],
    }
}

/// The state transition: one message, handled exhaustively, fully replaces
/// the prior state.
pub open spec fn step(s: AppV, m: MsgV) -> AppV {
    match m {
        MsgV::Noop => s,
        MsgV::ThemeMsg(ThemeMsg::ChangeTheme(t)) => AppV { theme: t, ..s },
        MsgV::SetName(n) => AppV { name: n, ..s },
        MsgV::NewPerson => AppV {
            name: Seq::empty(),
            people: s.people.push(person_of(s.name, Theme::Cyberpunk)),
            ..s
        },
    }
}

/// The command a transition issues. Every transition of this application
/// issues the empty command.
pub open spec fn step_cmd(s: AppV, m: MsgV) -> Seq<MsgV> {
    Seq::empty()
}

/// The document-level side effects a transition issues: changing the theme
/// issues exactly one, setting the root theme attribute to the new theme's
/// name; nothing else issues any.
pub open spec fn step_effects(s: AppV, m: MsgV) -> Seq<EffectV> {
    match m {
        MsgV::ThemeMsg(ThemeMsg::ChangeTheme(t)) => seq![
            EffectV { attr: "data-theme"@, value: theme_name(t) },
        ],
        _ => Seq::empty(),
    }
}

/// The cards of the gallery, one per record, in order.
pub open spec fn cards_v(people: Seq<PersonV>) -> Seq<NodeV> {
    Seq::new(people.len(), |i: int| card_v(people[i]))
}

/// The whole rendered tree: the theme picker, then the cards.
pub open spec fn view_v(s: AppV) -> NodeV {
    NodeV::Element(
        ElementV {
            tag: "main"@,
            attrs: seq![AttrV { name: "class"@, value: AttrValueV::Text("flex justify-center"@) }],
            children: seq![dropdown_v()] + cards_v(s.people),
        },
    )
}

impl App {
    /// The initial state.
    pub fn new() -> (r: App)
        ensures
            r.abs() == init_v(),
    {
        let mut people: Vec<Person> = Vec::new();
        people.push(Person::new("Detective Popcorn", Theme::Cyberpunk));
        people.push(Person::new("Blaze", Theme::Lofi));
        people.push(Person::new("Lazer", Theme::Aqua));
        people.push(Person::new("Blazer", Theme::Synthwave));
        let ghost pv = people@;
        let r = App { theme: Theme::Dark, name: String::new(), people };
        proof {
            assert(people_view(pv) =~~= init_v().people);
            assert(r.abs() =~~= init_v());
        }
        r
    }

    /// Handle one message: mutate the state in place and return the command
    /// and the document-level side effects the transition issues.
    pub fn update(&mut self, msg: Msg) -> (r: (Command, Vec<Effect>))
        ensures
            final(self).abs() == step(old(self).abs(), msg@),
            r.0@ == step_cmd(old(self).abs(), msg@),
            effects_view(r.1@) == step_effects(old(self).abs(), msg@),
    {
        let mut effects: Vec<Effect> = Vec::new();
        match msg {
            Msg::Noop => {},
            Msg::ThemeMsg(ThemeMsg::ChangeTheme(t)) => {
                effects.push(Effect { attr: "data-theme".to_owned(), value: t.name() });
                self.theme = t;
            },
            Msg::SetName(s) => {
                self.name = s;
            },
            Msg::NewPerson => {
                let name = self.name.clone();
                self.name = String::new();
                let p = Person::new(name.as_str(), Theme::Cyberpunk);
                self.people.push(p);
            },
        }
        let cmd = Command::none();
        proof {
            assert(self.abs() =~~= step(old(self).abs(), msg@));
            assert(effects_view(effects@) =~~= step_effects(old(self).abs(), msg@));
            assert(cmd@ =~= step_cmd(old(self).abs(), msg@));
        }
        (cmd, effects)
    }

    /// Render the current state as a fresh view tree; the previous tree is
    /// simply discarded. Pure: a shared borrow, no effects.
    pub fn view(&self) -> (r: Node)
        ensures
            r@ == view_v(self.abs()),
    {
        let mut kids: Vec<Node> = Vec::new();
        kids.push(Theme::dropdown());
        let mut i: usize = 0;
        while i < self.people.len()
            invariant
                i <= self.people.len(),
                kids@.len() == 1 + i,
                kids@[0]@ == dropdown_v(),
                forall|j: int| 0 <= j < i ==> kids@[j + 1]@ == card_v(self.abs().people[j]),
            decreases self.people.len() - i,
        {
            let c = self.people[i].card();
            kids.push(c);
            i = i + 1;
        }
        let ghost kv = kids@;
        let mut attrs: Vec<Attr> = Vec::new();
        attrs.push(Attr::text("class", "flex justify-center"));
        let ghost av = attrs@;
        let r = Node::element("main", attrs, kids);
        proof {
            lemma_nodes_v(kv);
            assert(attrs_view(av) =~~= seq![
                AttrV { name: "class"@, value: AttrValueV::Text("flex justify-center"@) },
            ]);
            assert(nodes_v(kv) =~~= seq![dropdown_v()] + cards_v(self.abs().people));
            assert(r@ == view_v(self.abs()));
        }
        r
    }
}

impl App {
    /// The name currently being typed.
    pub fn name(&self) -> (r: &String)
        ensures
            r@ == self.abs().name,
    {
        &self.name
    }

    /// The active theme.
    pub fn theme(&self) -> (r: Theme)
        ensures
            r == self.abs().theme,
    {
        self.theme
    }

    /// The gallery records, in order.
    pub fn people(&self) -> (r: &Vec<Person>)
        ensures
            people_view(r@) == self.abs().people,
    {
        &self.people
    }
}

impl Default for App {
    /// The default application is the initial state.
    fn default() -> (r: App)
        ensures
            r.abs() == init_v(),
    {
        App::new()
    }
}

/// `update` is deterministic: equal state and message values yield equal new
/// state, an equal command description, and equal side effects.
pub proof fn lemma_update_deterministic(s1: AppV, s2: AppV, m1: MsgV, m2: MsgV)
    requires
        s1 == s2,
        m1 == m2,
    ensures
        step(s1, m1) == step(s2, m2),
        step_cmd(s1, m1) == step_cmd(s2, m2),
        step_effects(s1, m1) == step_effects(s2, m2),
{
}

/// `view` is deterministic and pure: equal state values render structurally
/// equal trees, and rendering borrows the state immutably, so it never
/// changes it.
pub proof fn lemma_view_deterministic(s1: AppV, s2: AppV)
    requires
        s1 == s2,
    ensures
        view_v(s1) == view_v(s2),
{
}

} // verus!
