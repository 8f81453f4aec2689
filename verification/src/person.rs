//! A gallery record: a person with a name, a card theme, and an avatar
//! picture address derived from the name. The derived picture index is a pure
//! function of the name; two reserved indices mean "no picture", and such a
//! card shows a placeholder with the name's first character uppercased.

use vstd::prelude::*;

use std::collections::hash_map::DefaultHasher;
use std::hash::{Hash, Hasher};

use vstd::string::StrSliceExecFns;

use crate::theme::{theme_name, Theme};
use crate::view::{attrs_view, lemma_nodes_v, nodes_v, Attr, AttrV, AttrValueV, ElementV, Node, NodeV};

verus! {

/// The digest that std's default hasher computes for a string's characters.
pub uninterp spec fn name_digest(s: Seq<char>) -> u64;

/// Relies on std's `DefaultHasher`: `DefaultHasher::new` builds the same
/// hasher every time, so the digest that `Hasher::finish` returns after
/// hashing one string depends on that string's characters alone.
#[verifier::external_body]
fn hash_name(name: &str) -> (r: u64)
    ensures
        r == name_digest(name@),
{
    let mut hasher = DefaultHasher::new();
    name.hash(&mut hasher);
    hasher.finish()
}

/// The decimal digit characters of a number, most significant first.
pub open spec fn dec_digits(n: nat) -> Seq<char>
    decreases n,
{
    if n < 10 {
        seq![digit_char(n)]
    } else {
        dec_digits(n / 10) + seq![digit_char(n % 10)]
    }
}

/// The character for one decimal digit.
pub open spec fn digit_char(d: nat) -> char {
    if d == 0 {
        '0'
    } else if d == 1 {
        '1'
    } else if d == 2 {
        '2'
    } else if d == 3 {
        '3'
    } else if d == 4 {
        '4'
    } else if d == 5 {
        '5'
    } else if d == 6 {
        '6'
    } else if d == 7 {
        '7'
    } else if d == 8 {
        '8'
    } else {
        '9'
    }
}

/// The avatar address for a picture index: the picture service's base
/// address with the index as the image number.
pub open spec fn avatar_url(idx: nat) -> Seq<char> {
    "https://i.pravatar.cc/512?img="@ + dec_digits(idx)
}

/// Relies on std's `format!` with `Display` for `u64`: an unsigned integer is
/// written as its decimal digits, appended here to a literal prefix.
#[verifier::external_body]
fn avatar_url_string(idx: u64) -> (r: String)
    ensures
        r@ == avatar_url(idx as nat),
{
    format!("https://i.pravatar.cc/512?img={}", idx)
}

/// Relies on std's `ToString` for `char`: the string of one character.
#[verifier::external_body]
fn char_to_string(c: char) -> (r: String)
    ensures
        r@ == seq![c],
{
    c.to_string()
}

/// The derived picture index for a name: a pure function of the name alone.
pub open spec fn pic_index_of(name: Seq<char>) -> nat {
    (name_digest(name) % 70 + 1) as nat
}

/// Whether a picture index maps to an actual picture; two reserved indices
/// mean "no picture".
pub open spec fn has_picture(idx: nat) -> bool {
    idx != 65 && idx != 45
}

/// The uppercase form of an ASCII lowercase letter; any other character is
/// kept as it is.
pub open spec fn upper_char(c: char) -> char {
    match c {
        'a' => 'A',
        'b' => 'B',
        'c' => 'C',
        'd' => 'D',
        'e' => 'E',
        'f' => 'F',
        'g' => 'G',
        'h' => 'H',
        'i' => 'I',
        'j' => 'J',
        'k' => 'K',
        'l' => 'L',
        'm' => 'M',
        'n' => 'N',
        'o' => 'O',
        'p' => 'P',
        'q' => 'Q',
        'r' => 'R',
        's' => 'S',
        't' => 'T',
        'u' => 'U',
        'v' => 'V',
        'w' => 'W',
        'x' => 'X',
        'y' => 'Y',
        'z' => 'Z',
        _ => c,
    }
}

/// The derived picture index is a pure function of the name alone: equal
/// names give equal indices, in every run.
pub proof fn lemma_avatar_deterministic(n1: Seq<char>, n2: Seq<char>)
    requires
        n1 == n2,
    ensures
        pic_index_of(n1) == pic_index_of(n2),
        person_of(n1, Theme::Cyberpunk) == person_of(n2, Theme::Cyberpunk),
{
}

/// The placeholder initial for a name: its first character uppercased, or
/// nothing when the name is empty.
pub open spec fn initial_of(name: Seq<char>) -> Seq<char> {
    if name.len() == 0 {
        Seq::empty()
    } else {
        seq![upper_char(name[0])]
    }
}

fn ascii_upper(c: char) -> (r: char)
    ensures
        r == upper_char(c),
{
    match c {
        'a' => 'A',
        'b' => 'B',
        'c' => 'C',
        'd' => 'D',
        'e' => 'E',
        'f' => 'F',
        'g' => 'G',
        'h' => 'H',
        'i' => 'I',
        'j' => 'J',
        'k' => 'K',
        'l' => 'L',
        'm' => 'M',
        'n' => 'N',
        'o' => 'O',
        'p' => 'P',
        'q' => 'Q',
        'r' => 'R',
        's' => 'S',
        't' => 'T',
        'u' => 'U',
        'v' => 'V',
        'w' => 'W',
        'x' => 'X',
        'y' => 'Y',
        'z' => 'Z',
        _ => c,
    }
}

/// One gallery record.
#[derive(Debug, PartialEq)]
pub struct Person {
    pub name: String,
    pub theme: Theme,
    pic_url: Option<String>,
}

/// The mathematical value of a person.
#[verifier::ext_equal]
pub struct PersonV {
    pub name: Seq<char>,
    pub theme: Theme,
    pub pic_url: Option<Seq<char>>,
}

impl View for Person {
    type V = PersonV;

    closed spec fn view(&self) -> PersonV {
        PersonV {
            name: self.name@,
            theme: self.theme,
            pic_url: match self.pic_url {
                Some(ref u) => Some(u@),
                None => None,
            },
        }
    }
}

/// The person a name and a theme build: the picture address is derived from
/// the name, and the two reserved indices leave it absent.
pub open spec fn person_of(name: Seq<char>, theme: Theme) -> PersonV {
    PersonV {
        name,
        theme,
        pic_url: if has_picture(pic_index_of(name)) {
            Some(avatar_url(pic_index_of(name)))
        } else {
            None
        },
    }
}

impl Person {
    /// Build a person from a name and a theme, deriving the picture index
    /// from the name.
    pub fn new(name: &str, theme: Theme) -> (r: Person)
        ensures
            r@ == person_of(name@, theme),
    {
        let digest = hash_name(name);
        let idx: u64 = digest % 70 + 1;
        let pic_url: Option<String> = if idx == 65 || idx == 45 {
            None
        } else {
            Some(avatar_url_string(idx))
        };
        let r = Person { name: name.to_owned(), theme, pic_url };
        proof {
            assert(idx as nat == pic_index_of(name@));
            assert(r@ =~= person_of(name@, theme));
        }
        r
    }

    /// The picture address of this person, if the derived index has one.
    pub fn pic_url(&self) -> (r: &Option<String>)
        ensures
            (match r {
                Some(u) => self@.pic_url == Some(u@),
                None => self@.pic_url is None,
            }),
    {
        &self.pic_url
    }
}

/// The picture leaf of a card that has a picture.
pub open spec fn img_v(url: Seq<char>) -> NodeV {
    NodeV::Element(
        ElementV {
            tag: "img"@,
            attrs: seq![AttrV { name: "src"@, value: AttrValueV::Text(url) }],
            children: Seq::empty(),
        },
    )
}

/// The avatar branch of a card with a picture.
pub open spec fn pic_avatar_v(url: Seq<char>) -> NodeV {
    NodeV::Element(
        ElementV {
            tag: "div"@,
            attrs: seq![
                AttrV { name: "class"@, value: AttrValueV::Text("mb-8 rounded-full w-24 h-24"@) },
            ],
            children: seq![img_v(url)],
        },
    )
}

/// The placeholder initial leaf of a card without a picture.
pub open spec fn placeholder_span_v(name: Seq<char>) -> NodeV {
    NodeV::Element(
        ElementV {
            tag: "span"@,
            attrs: seq![AttrV { name: "class"@, value: AttrValueV::Text("text-xl"@) }],
            children: seq![NodeV::Text(initial_of(name))],
        },
    )
}

/// The avatar branch of a card without a picture.
pub open spec fn placeholder_avatar_v(name: Seq<char>) -> NodeV {
    NodeV::Element(
        ElementV {
            tag: "div"@,
            attrs: seq![
                AttrV {
                    name: "class"@,
                    value: AttrValueV::Text(
                        "mb-8 bg-neutral-focus text-neutral-content rounded-full w-24 h-24"@,
                    ),
                },
            ],
            children: seq![placeholder_span_v(name)],
        },
    )
}

/// The avatar branch of a card: the picture when there is one, else a
/// placeholder showing the name's initial. A pure branch over the person
/// value; no separate state machine.
pub open spec fn avatar_v(p: PersonV) -> NodeV {
    match p.pic_url {
        Some(url) => pic_avatar_v(url),
        None => placeholder_avatar_v(p.name),
    }
}

/// The class of the avatar container: a placeholder class is added when
/// there is no picture.
pub open spec fn avatar_class(p: PersonV) -> Seq<char> {
    if p.pic_url is Some {
        "avatar"@
    } else {
        "avatar placeholder"@
    }
}

/// The avatar container of a card.
pub open spec fn avatar_box_v(p: PersonV) -> NodeV {
    NodeV::Element(
        ElementV {
            tag: "div"@,
            attrs: seq![AttrV { name: "class"@, value: AttrValueV::Text(avatar_class(p)) }],
            children: seq![avatar_v(p)],
        },
    )
}

/// The card title: the person's name.
pub open spec fn title_v(name: Seq<char>) -> NodeV {
    NodeV::Element(
        ElementV {
            tag: "h2"@,
            attrs: seq![AttrV { name: "class"@, value: AttrValueV::Text("card-title"@) }],
            children: seq![NodeV::Text(name)],
        },
    )
}

/// The card body: the avatar container, then the title.
pub open spec fn card_body_v(p: PersonV) -> NodeV {
    NodeV::Element(
        ElementV {
            tag: "div"@,
            attrs: seq![AttrV { name: "class"@, value: AttrValueV::Text("card-body"@) }],
            children: seq![avatar_box_v(p), title_v(p.name)],
        },
    )
}

/// The inner card frame around the body.
pub open spec fn card_frame_v(p: PersonV) -> NodeV {
    NodeV::Element(
        ElementV {
            tag: "div"@,
            attrs: seq![
                AttrV {
                    name: "class"@,
                    value: AttrValueV::Text(
                        "flex-1 card shadow bordered bg-base-100 text-base-content"@,
                    ),
                },
            ],
            children: seq![card_body_v(p)],
        },
    )
}

/// The card a person renders to: a themed frame around the avatar branch and
/// the person's name as the card title.
pub open spec fn card_v(p: PersonV) -> NodeV {
    NodeV::Element(
        ElementV {
            tag: "div"@,
            attrs: seq![
                AttrV { name: "class"@, value: AttrValueV::Text("flex max-w-sm"@) },
                AttrV { name: "data-theme"@, value: AttrValueV::Text(theme_name(p.theme)) },
            ],
            children: seq![card_frame_v(p)],
        },
    )
}

impl Person {
    /// Render this person as a card. Total: a person with an empty name and
    /// no picture gets an empty placeholder initial.
    pub fn card(&self) -> (r: Node)
        ensures
            r@ == card_v(self@),
    {
        let avatar: Node = match &self.pic_url {
            Some(url) => {
                let mut img_attrs: Vec<Attr> = Vec::new();
                img_attrs.push(Attr::text_string("src", url.clone()));
                let ghost iav = img_attrs@;
                let img = Node::element("img", img_attrs, Vec::new());
                proof {
                    assert(attrs_view(iav) =~~= seq![
                        AttrV { name: "src"@, value: AttrValueV::Text(url@) },
                    ]);
                    assert(nodes_v(Seq::<Node>::empty()) =~~= Seq::<NodeV>::empty());
                    assert(img@ == img_v(url@));
                }
                let mut attrs: Vec<Attr> = Vec::new();
                attrs.push(Attr::text("class", "mb-8 rounded-full w-24 h-24"));
                let ghost av = attrs@;
                let mut kids: Vec<Node> = Vec::new();
                kids.push(img);
                let ghost kv = kids@;
                let r = Node::element("div", attrs, kids);
                proof {
                    lemma_nodes_v(kv);
                    assert(attrs_view(av) =~~= seq![
                        AttrV {
                            name: "class"@,
                            value: AttrValueV::Text("mb-8 rounded-full w-24 h-24"@),
                        },
                    ]);
                    assert(nodes_v(kv) =~~= seq![img_v(url@)]);
                    assert(r@ == avatar_v(self@));
                }
                r
            },
            None => {
                let initial: String = if self.name.as_str().unicode_len() > 0 {
                    let c = self.name.as_str().get_char(0);
                    char_to_string(ascii_upper(c))
                } else {
                    String::new()
                };
                proof {
                    assert(initial@ =~= initial_of(self@.name));
                }
                let mut span_attrs: Vec<Attr> = Vec::new();
                span_attrs.push(Attr::text("class", "text-xl"));
                let ghost sav = span_attrs@;
                let mut span_kids: Vec<Node> = Vec::new();
                span_kids.push(Node::text_string(initial));
                let ghost skv = span_kids@;
                let span = Node::element("span", span_attrs, span_kids);
                proof {
                    lemma_nodes_v(skv);
                    assert(attrs_view(sav) =~~= seq![
                        AttrV { name: "class"@, value: AttrValueV::Text("text-xl"@) },
                    ]);
                    assert(nodes_v(skv) =~~= seq![NodeV::Text(initial_of(self@.name))]);
                    assert(span@ == placeholder_span_v(self@.name));
                }
                let mut attrs: Vec<Attr> = Vec::new();
                attrs.push(
                    Attr::text("class", "mb-8 bg-neutral-focus text-neutral-content rounded-full w-24 h-24"),
                );
                let ghost av = attrs@;
                let mut kids: Vec<Node> = Vec::new();
                kids.push(span);
                let ghost kv = kids@;
                let r = Node::element("div", attrs, kids);
                proof {
                    lemma_nodes_v(kv);
                    assert(attrs_view(av) =~~= seq![
                        AttrV {
                            name: "class"@,
                            value: AttrValueV::Text(
                                "mb-8 bg-neutral-focus text-neutral-content rounded-full w-24 h-24"@,
                            ),
                        },
                    ]);
                    assert(nodes_v(kv) =~~= seq![placeholder_span_v(self@.name)]);
                    assert(r@ == avatar_v(self@));
                }
                r
            },
        };
        let mut av_attrs: Vec<Attr> = Vec::new();
        av_attrs.push(
            Attr::text_string("class", if self.pic_url.is_some() {
                "avatar".to_owned()
            } else {
                "avatar placeholder".to_owned()
            }),
        );
        let ghost aav = av_attrs@;
        let mut av_kids: Vec<Node> = Vec::new();
        av_kids.push(avatar);
        let ghost avkv = av_kids@;
        let avatar_div = Node::element("div", av_attrs, av_kids);
        proof {
            lemma_nodes_v(avkv);
            assert(attrs_view(aav) =~~= seq![
                AttrV { name: "class"@, value: AttrValueV::Text(avatar_class(self@)) },
            ]);
            assert(nodes_v(avkv) =~~= seq![avatar_v(self@)]);
            assert(avatar_div@ == avatar_box_v(self@));
        }

        let mut title_attrs: Vec<Attr> = Vec::new();
        title_attrs.push(Attr::text("class", "card-title"));
        let ghost tav = title_attrs@;
        let mut title_kids: Vec<Node> = Vec::new();
        title_kids.push(Node::text_string(self.name.clone()));
        let ghost tkv = title_kids@;
        let title = Node::element("h2", title_attrs, title_kids);
        proof {
            lemma_nodes_v(tkv);
            assert(attrs_view(tav) =~~= seq![
                AttrV { name: "class"@, value: AttrValueV::Text("card-title"@) },
            ]);
            assert(nodes_v(tkv) =~~= seq![NodeV::Text(self@.name)]);
            assert(title@ == title_v(self@.name));
        }

        let mut body_attrs: Vec<Attr> = Vec::new();
        body_attrs.push(Attr::text("class", "card-body"));
        let ghost bav = body_attrs@;
        let mut body_kids: Vec<Node> = Vec::new();
        body_kids.push(avatar_div);
        body_kids.push(title);
        let ghost bkv = body_kids@;
        let body = Node::element("div", body_attrs, body_kids);
        proof {
            lemma_nodes_v(bkv);
            assert(attrs_view(bav) =~~= seq![
                AttrV { name: "class"@, value: AttrValueV::Text("card-body"@) },
            ]);
            assert(nodes_v(bkv) =~~= seq![avatar_box_v(self@), title_v(self@.name)]);
            assert(body@ == card_body_v(self@));
        }

        let mut frame_attrs: Vec<Attr> = Vec::new();
        frame_attrs.push(
            Attr::text("class", "flex-1 card shadow bordered bg-base-100 text-base-content"),
        );
        let ghost fav = frame_attrs@;
        let mut frame_kids: Vec<Node> = Vec::new();
        frame_kids.push(body);
        let ghost fkv = frame_kids@;
        let frame = Node::element("div", frame_attrs, frame_kids);
        proof {
            lemma_nodes_v(fkv);
            assert(attrs_view(fav) =~~= seq![
                AttrV {
                    name: "class"@,
                    value: AttrValueV::Text(
                        "flex-1 card shadow bordered bg-base-100 text-base-content"@,
                    ),
                },
            ]);
            assert(nodes_v(fkv) =~~= seq![card_body_v(self@)]);
            assert(frame@ == card_frame_v(self@));
        }

        let mut card_attrs: Vec<Attr> = Vec::new();
        card_attrs.push(Attr::text("class", "flex max-w-sm"));
        card_attrs.push(Attr::text_string("data-theme", self.theme.name()));
        let ghost cav = card_attrs@;
        let mut card_kids: Vec<Node> = Vec::new();
        card_kids.push(frame);
        let ghost ckv = card_kids@;
        let r = Node::element("div", card_attrs, card_kids);
        proof {
            lemma_nodes_v(ckv);
            assert(attrs_view(cav) =~~= seq![
                AttrV { name: "class"@, value: AttrValueV::Text("flex max-w-sm"@) },
                AttrV { name: "data-theme"@, value: AttrValueV::Text(theme_name(self@.theme)) },
            ]);
            assert(nodes_v(ckv) =~~= seq![card_frame_v(self@)]);
            assert(r@ == card_v(self@));
        }
        r
    }
}

} // verus!
