use card_gallery::application::App;
use card_gallery::msg::{Command, Msg};
use card_gallery::person::Person;
use card_gallery::runtime::Program;
use card_gallery::theme::{Theme, ThemeMsg};
use card_gallery::view::{AttrValue, Node};

fn element_children(n: &Node) -> &Vec<Node> {
    match n {
        Node::Element(e) => &e.children,
        Node::Text(_) => panic!("expected an element node"),
    }
}

fn text_of(n: &Node) -> &str {
    match n {
        Node::Text(s) => s.as_str(),
        Node::Element(_) => panic!("expected a text node"),
    }
}

#[test]
fn update_is_deterministic_on_equal_inputs() {
    let mut a = App::new();
    let mut b = App::new();
    assert_eq!(a, b);
    let (cmd_a, eff_a) = a.update(Msg::SetName("Ann".to_string()));
    let (cmd_b, eff_b) = b.update(Msg::SetName("Ann".to_string()));
    assert_eq!(a, b);
    assert_eq!(cmd_a, cmd_b);
    assert_eq!(eff_a, eff_b);
    let (cmd_a2, eff_a2) = a.update(Msg::NewPerson);
    let (cmd_b2, eff_b2) = b.update(Msg::NewPerson);
    assert_eq!(a, b);
    assert_eq!(cmd_a2, cmd_b2);
    assert_eq!(eff_a2, eff_b2);
}

#[test]
fn view_is_deterministic_and_pure() {
    let mut app = App::new();
    let _ = app.update(Msg::SetName("Zoe".to_string()));
    let first = app.view();
    let second = app.view();
    assert_eq!(first, second);
    // rendering changed nothing observable
    assert_eq!(app.name().as_str(), "Zoe");
    assert_eq!(app.people().len(), 4);
    let third = app.view();
    assert_eq!(first, third);
}

#[test]
fn two_enqueued_messages_apply_in_arrival_order() {
    // set-name first, then create: the new record carries the name
    let mut p = Program::mount(App::new());
    p.enqueue(Msg::SetName("Ann".to_string()));
    p.enqueue(Msg::NewPerson);
    let _ = p.run_pending();
    assert_eq!(p.app().people().len(), 5);
    assert_eq!(p.app().people()[4].name.as_str(), "Ann");
    assert_eq!(p.app().name().as_str(), "");

    // the other arrival order gives the other outcome: the record is created
    // from the still-empty name, and the name is set afterwards
    let mut q = Program::mount(App::new());
    q.enqueue(Msg::NewPerson);
    q.enqueue(Msg::SetName("Ann".to_string()));
    let _ = q.run_pending();
    assert_eq!(q.app().people().len(), 5);
    assert_eq!(q.app().people()[4].name.as_str(), "");
    assert_eq!(q.app().name().as_str(), "Ann");
}

#[test]
fn set_create_clear_round_trip() {
    let mut p = Program::mount(App::new());
    let _ = p.dispatch(Msg::SetName("Ann".to_string()));
    let _ = p.dispatch(Msg::NewPerson);
    let _ = p.dispatch(Msg::SetName("".to_string()));
    assert_eq!(p.app().name().as_str(), "");
    assert_eq!(p.app().people().len(), 5);
    let ann = &p.app().people()[4];
    assert_eq!(ann.name.as_str(), "Ann");
    assert!(matches!(ann.theme, Theme::Cyberpunk));
}

#[test]
fn change_theme_sets_state_and_emits_one_document_effect() {
    // from the default prior theme
    let mut p = Program::mount(App::new());
    let (outcomes, _tree) = p.dispatch(Msg::ThemeMsg(ThemeMsg::ChangeTheme(Theme::Dark)));
    assert_eq!(outcomes.len(), 1);
    assert_eq!(outcomes[0].effects.len(), 1);
    assert_eq!(outcomes[0].effects[0].attr.as_str(), "data-theme");
    assert_eq!(outcomes[0].effects[0].value.as_str(), "dark");
    assert!(matches!(p.app().theme(), Theme::Dark));

    // from another prior theme the outcome is the same
    let _ = p.dispatch(Msg::ThemeMsg(ThemeMsg::ChangeTheme(Theme::Cupcake)));
    let (outcomes2, _tree2) = p.dispatch(Msg::ThemeMsg(ThemeMsg::ChangeTheme(Theme::Dark)));
    assert_eq!(outcomes2.len(), 1);
    assert_eq!(outcomes2[0].effects.len(), 1);
    assert_eq!(outcomes2[0].effects[0].attr.as_str(), "data-theme");
    assert_eq!(outcomes2[0].effects[0].value.as_str(), "dark");
    assert!(matches!(p.app().theme(), Theme::Dark));

    // no other message emits a document effect
    let (outcomes3, _tree3) = p.dispatch(Msg::Noop);
    assert_eq!(outcomes3.len(), 1);
    assert_eq!(outcomes3[0].effects.len(), 0);
}

#[test]
fn avatar_is_a_pure_function_of_the_name() {
    let a = Person::new("Blaze", Theme::Lofi);
    let b = Person::new("Blaze", Theme::Cyberpunk);
    assert_eq!(a.pic_url(), b.pic_url());
    match a.pic_url() {
        Some(url) => {
            let prefix = "https://i.pravatar.cc/512?img=";
            assert!(url.starts_with(prefix));
            let idx: u64 = url[prefix.len()..].parse().expect("a decimal index");
            assert!(1 <= idx && idx <= 70);
            assert!(idx != 65 && idx != 45);
        },
        None => {},
    }
}

#[test]
fn reserved_indices_show_the_uppercased_initial() {
    // search for a name whose derived index is one of the two reserved ones
    let mut found: Option<Person> = None;
    for i in 0..200_000u32 {
        let name = format!("person{}", i);
        let p = Person::new(name.as_str(), Theme::Lofi);
        if p.pic_url().is_none() {
            found = Some(p);
            break;
        }
    }
    let p = found.expect("some name maps to a reserved index");
    let card = p.card();
    let frame = &element_children(&card)[0];
    let body = &element_children(frame)[0];
    let avatar_box = &element_children(body)[0];
    let placeholder = &element_children(avatar_box)[0];
    let span = &element_children(placeholder)[0];
    let initial = text_of(&element_children(span)[0]);
    let first = p.name.chars().next().expect("a nonempty name");
    assert_eq!(initial, first.to_ascii_uppercase().to_string().as_str());
}

#[test]
fn empty_name_submission_appends_an_empty_record() {
    let mut p = Program::mount(App::new());
    let _ = p.dispatch(Msg::NewPerson);
    assert_eq!(p.app().people().len(), 5);
    assert_eq!(p.app().people()[4].name.as_str(), "");
    // rendering the empty-name record is total: no crash
    let _card = p.app().people()[4].card();
    let _tree = p.render();
}

#[test]
fn theme_catalogue_is_fixed_and_lowercase() {
    let all = Theme::all();
    assert_eq!(all.len(), 21);
    assert_eq!(all[0].name().as_str(), "light");
    assert_eq!(all[1].name().as_str(), "dark");
    assert_eq!(all[8].name().as_str(), "cyberpunk");
    assert_eq!(all[20].name().as_str(), "dracula");
    for t in &all {
        let n = t.name();
        assert_eq!(n, n.to_lowercase());
    }
}

#[test]
fn dropdown_lists_every_theme_in_order_with_its_message() {
    let dropdown = Theme::dropdown();
    let parts = element_children(&dropdown);
    assert_eq!(parts.len(), 2);
    let list = &parts[1];
    let options = element_children(list);
    let all = Theme::all();
    assert_eq!(options.len(), all.len());
    for (i, option) in options.iter().enumerate() {
        let anchor = &element_children(option)[0];
        match anchor {
            Node::Element(e) => {
                assert_eq!(e.tag.as_str(), "a");
                assert_eq!(e.attrs[0].name.as_str(), "on_click");
                let expected = Msg::ThemeMsg(ThemeMsg::ChangeTheme(all[i]));
                assert_eq!(e.attrs[0].value, AttrValue::Listener(expected));
            },
            Node::Text(_) => panic!("expected an anchor element"),
        }
        let label = &element_children(anchor)[0];
        let shown = text_of(&element_children(label)[0]);
        assert_eq!(shown, all[i].name().as_str());
    }
}

#[test]
fn every_update_issues_the_empty_command() {
    let mut p = Program::mount(App::new());
    let (outcomes, _tree) = p.dispatch(Msg::SetName("Kim".to_string()));
    assert_eq!(outcomes.len(), 1);
    for o in outcomes {
        assert_eq!(o.command, Command::none());
        assert_eq!(o.command.into_msgs().len(), 0);
    }
}

#[test]
fn command_messages_are_processed_in_the_order_produced() {
    let mut p = Program::mount(App::new());
    let produced = vec![Msg::SetName("Bob".to_string()), Msg::NewPerson];
    let cmd = Command::of_msgs(produced);
    p.complete_command(cmd);
    let _ = p.run_pending();
    assert_eq!(p.app().people().len(), 5);
    assert_eq!(p.app().people()[4].name.as_str(), "Bob");
    assert_eq!(p.app().name().as_str(), "");
}

#[test]
fn noop_changes_nothing() {
    let mut p = Program::mount(App::new());
    let before = p.render();
    let (outcomes, after) = p.dispatch(Msg::Noop);
    assert_eq!(outcomes[0].effects.len(), 0);
    assert_eq!(before, after);
    assert_eq!(p.app().name().as_str(), "");
    assert_eq!(p.app().people().len(), 4);
}

#[test]
fn rendered_tree_holds_the_picker_then_one_card_per_record() {
    let app = App::new();
    let tree = app.view();
    match &tree {
        Node::Element(e) => {
            assert_eq!(e.tag.as_str(), "main");
            assert_eq!(e.children.len(), 1 + app.people().len());
            assert_eq!(e.children[0], Theme::dropdown());
            for (i, p) in app.people().iter().enumerate() {
                assert_eq!(e.children[1 + i], p.card());
            }
        },
        Node::Text(_) => panic!("expected the root element"),
    }
}
