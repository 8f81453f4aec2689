//! The theme catalogue: a closed enumeration of display themes, each with a
//! lowercase name used both as the document-level theme attribute value and as
//! the label shown in the theme picker.

use vstd::prelude::*;

use crate::msg::{Msg, MsgV};
use crate::view::{attrs_view, lemma_nodes_v, nodes_v, Attr, AttrV, AttrValueV, ElementV, Node, NodeV};

verus! {

/// One of the fixed set of display themes.
#[derive(Clone, Copy, Debug, PartialEq, Eq, Structural)]
pub enum Theme {
    Light,
    Dark,
    Cupcake,
    Bumblebee,
    Emerald,
    Corporate,
    Synthwave,
    Retro,
    Cyberpunk,
    Valentine,
    Halloween,
    Garden,
    Forest,
    Aqua,
    Lofi,
    Pastel,
    Fantasy,
    Wireframe,
    Black,
    Luxury,
    Dracula,
}

/// A message emitted by the theme picker fragment; it is lifted into the
/// application's own message type at the point where the fragment is embedded.
#[derive(Clone, Copy, Debug, PartialEq, Eq, Structural)]
pub enum ThemeMsg {
    ChangeTheme(Theme),
}

/// The lowercase name of a theme, as written into theme attributes and shown
/// in the picker.
pub open spec fn theme_name(t: Theme) -> Seq<char> {
    match t {
        Theme::Light => "light"@,
        Theme::Dark => "dark"@,
        Theme::Cupcake => "cupcake"@,
        Theme::Bumblebee => "bumblebee"@,
        Theme::Emerald => "emerald"@,
        Theme::Corporate => "corporate"@,
        Theme::Synthwave => "synthwave"@,
        Theme::Retro => "retro"@,
        Theme::Cyberpunk => "cyberpunk"@,
        Theme::Valentine => "valentine"@,
        Theme::Halloween => "halloween"@,
        Theme::Garden => "garden"@,
        Theme::Forest => "forest"@,
        Theme::Aqua => "aqua"@,
        Theme::Lofi => "lofi"@,
        Theme::Pastel => "pastel"@,
        Theme::Fantasy => "fantasy"@,
        Theme::Wireframe => "wireframe"@,
        Theme::Black => "black"@,
        Theme::Luxury => "luxury"@,
        Theme::Dracula => "dracula"@,
    }
}

/// Every theme, in the fixed order the picker lists them.
pub open spec fn all_themes() -> Seq<Theme> {
    seq![
        Theme::Light,
        Theme::Dark,
        Theme::Cupcake,
        Theme::Bumblebee,
        Theme::Emerald,
        Theme::Corporate,
        Theme::Synthwave,
        Theme::Retro,
        Theme::Cyberpunk,
        Theme::Valentine,
        Theme::Halloween,
        Theme::Garden,
        Theme::Forest,
        Theme::Aqua,
        Theme::Lofi,
        Theme::Pastel,
        Theme::Fantasy,
        Theme::Wireframe,
        Theme::Black,
        Theme::Luxury,
        Theme::Dracula,
    ]
}

impl Theme {
    /// The lowercase name of this theme.
    pub fn name(&self) -> (r: String)
        ensures
            r@ == theme_name(*self),
    {
        match self {
            Theme::Light => "light".to_owned(),
            Theme::Dark => "dark".to_owned(),
            Theme::Cupcake => "cupcake".to_owned(),
            Theme::Bumblebee => "bumblebee".to_owned(),
            Theme::Emerald => "emerald".to_owned(),
            Theme::Corporate => "corporate".to_owned(),
            Theme::Synthwave => "synthwave".to_owned(),
            Theme::Retro => "retro".to_owned(),
            Theme::Cyberpunk => "cyberpunk".to_owned(),
            Theme::Valentine => "valentine".to_owned(),
            Theme::Halloween => "halloween".to_owned(),
            Theme::Garden => "garden".to_owned(),
            Theme::Forest => "forest".to_owned(),
            Theme::Aqua => "aqua".to_owned(),
            Theme::Lofi => "lofi".to_owned(),
            Theme::Pastel => "pastel".to_owned(),
            Theme::Fantasy => "fantasy".to_owned(),
            Theme::Wireframe => "wireframe".to_owned(),
            Theme::Black => "black".to_owned(),
            Theme::Luxury => "luxury".to_owned(),
            Theme::Dracula => "dracula".to_owned(),
        }
    }

    /// Every theme value, in the fixed order the picker enumerates them.
    pub fn all() -> (r: Vec<Theme>)
        ensures
            r@ == all_themes(),
    {
        let mut v: Vec<Theme> = Vec::new();
        v.push(Theme::Light);
        v.push(Theme::Dark);
        v.push(Theme::Cupcake);
        v.push(Theme::Bumblebee);
        v.push(Theme::Emerald);
        v.push(Theme::Corporate);
        v.push(Theme::Synthwave);
        v.push(Theme::Retro);
        v.push(Theme::Cyberpunk);
        v.push(Theme::Valentine);
        v.push(Theme::Halloween);
        v.push(Theme::Garden);
        v.push(Theme::Forest);
        v.push(Theme::Aqua);
        v.push(Theme::Lofi);
        v.push(Theme::Pastel);
        v.push(Theme::Fantasy);
        v.push(Theme::Wireframe);
        v.push(Theme::Black);
        v.push(Theme::Luxury);
        v.push(Theme::Dracula);
        proof {
            assert(v@ =~= all_themes());
        }
        v
    }
}

/// The label of one picker entry: the theme's name.
pub open spec fn theme_label_v(t: Theme) -> NodeV {
    NodeV::Element(
        ElementV {
            tag: "h1"@,
            attrs: seq![AttrV { name: "class"@, value: AttrValueV::Text("text-md"@) }],
            children: seq![NodeV::Text(theme_name(t))],
        },
    )
}

/// The interactive anchor of one picker entry: clicking it produces the
/// change-theme message for that entry's theme, lifted into the
/// application's message set.
pub open spec fn theme_anchor_v(t: Theme) -> NodeV {
    NodeV::Element(
        ElementV {
            tag: "a"@,
            attrs: seq![
                AttrV {
                    name: "on_click"@,
                    value: AttrValueV::Listener(MsgV::ThemeMsg(ThemeMsg::ChangeTheme(t))),
                },
            ],
            children: seq![theme_label_v(t)],
        },
    )
}

/// One entry of the picker list, previewing its own theme.
pub open spec fn theme_option_v(t: Theme) -> NodeV {
    NodeV::Element(
        ElementV {
            tag: "div"@,
            attrs: seq![
                AttrV {
                    name: "class"@,
                    value: AttrValueV::Text("flex flex-col w-full text-base-content bg-base-100"@),
                },
                AttrV { name: "data-theme"@, value: AttrValueV::Text(theme_name(t)) },
            ],
            children: seq![theme_anchor_v(t)],
        },
    )
}

/// The button that opens the picker.
pub open spec fn dropdown_button_v() -> NodeV {
    NodeV::Element(
        ElementV {
            tag: "div"@,
            attrs: seq![
                AttrV { name: "tabindex"@, value: AttrValueV::Text("0"@) },
                AttrV { name: "class"@, value: AttrValueV::Text("m-1 btn"@) },
            ],
            children: seq![NodeV::Text("Theme"@)],
        },
    )
}

/// The scrollable list with one entry per theme, in the fixed order of the
/// enumeration.
pub open spec fn dropdown_list_v() -> NodeV {
    NodeV::Element(
        ElementV {
            tag: "div"@,
            attrs: seq![
                AttrV { name: "tabindex"@, value: AttrValueV::Text("0"@) },
                AttrV {
                    name: "class"@,
                    value: AttrValueV::Text(
                        "p-2 artboard shadow max-h-60 overflow-scroll dropdown-content bg-base-100 rounded-md w-64"@,
                    ),
                },
            ],
            children: Seq::new(all_themes().len(), |i: int| theme_option_v(all_themes()[i])),
        },
    )
}

/// The whole theme picker fragment.
pub open spec fn dropdown_v() -> NodeV {
    NodeV::Element(
        ElementV {
            tag: "div"@,
            attrs: seq![
                AttrV {
                    name: "class"@,
                    value: AttrValueV::Text("dropdown sm:dropdown-left dropdown-end overflow-visible"@),
                },
            ],
            children: seq![dropdown_button_v(), dropdown_list_v()],
        },
    )
}

impl Theme {
    /// Build the theme picker: a button and a list of every theme, each
    /// entry bound to produce the change-theme message for its own value.
    pub fn dropdown() -> (r: Node)
        ensures
            r@ == dropdown_v(),
    {
        let mut button_attrs: Vec<Attr> = Vec::new();
        button_attrs.push(Attr::text("tabindex", "0"));
        button_attrs.push(Attr::text("class", "m-1 btn"));
        let ghost bav = button_attrs@;
        let mut button_kids: Vec<Node> = Vec::new();
        button_kids.push(Node::text("Theme"));
        let ghost bkv = button_kids@;
        let button = Node::element("div", button_attrs, button_kids);
        proof {
            lemma_nodes_v(bkv);
            assert(attrs_view(bav) =~~= seq![
                AttrV { name: "tabindex"@, value: AttrValueV::Text("0"@) },
                AttrV { name: "class"@, value: AttrValueV::Text("m-1 btn"@) },
            ]);
            assert(nodes_v(bkv) =~~= seq![NodeV::Text("Theme"@)]);
            assert(button@ == dropdown_button_v());
        }

        let themes = Theme::all();
        let mut options: Vec<Node> = Vec::new();
        let mut i: usize = 0;
        while i < themes.len()
            invariant
                themes@ == all_themes(),
                i <= themes.len(),
                options@.len() == i,
                forall|j: int| 0 <= j < i ==> options@[j]@ == theme_option_v(all_themes()[j]),
            decreases themes.len() - i,
        {
            let t = themes[i];
            let mut label_attrs: Vec<Attr> = Vec::new();
            label_attrs.push(Attr::text("class", "text-md"));
            let ghost lav = label_attrs@;
            let mut label_kids: Vec<Node> = Vec::new();
            label_kids.push(Node::text_string(t.name()));
            let ghost lkv = label_kids@;
            let label = Node::element("h1", label_attrs, label_kids);
            proof {
                lemma_nodes_v(lkv);
                assert(attrs_view(lav) =~~= seq![
                    AttrV { name: "class"@, value: AttrValueV::Text("text-md"@) },
                ]);
                assert(nodes_v(lkv) =~~= seq![NodeV::Text(theme_name(t))]);
                assert(label@ == theme_label_v(t));
            }

            let mut anchor_attrs: Vec<Attr> = Vec::new();
            anchor_attrs.push(Attr::on_click(Msg::from(ThemeMsg::ChangeTheme(t))));
            let ghost aav = anchor_attrs@;
            let mut anchor_kids: Vec<Node> = Vec::new();
            anchor_kids.push(label);
            let ghost akv = anchor_kids@;
            let anchor = Node::element("a", anchor_attrs, anchor_kids);
            proof {
                lemma_nodes_v(akv);
                assert(attrs_view(aav) =~~= seq![
                    AttrV {
                        name: "on_click"@,
                        value: AttrValueV::Listener(MsgV::ThemeMsg(ThemeMsg::ChangeTheme(t))),
                    },
                ]);
                assert(nodes_v(akv) =~~= seq![theme_label_v(t)]);
                assert(anchor@ == theme_anchor_v(t));
            }

            let mut opt_attrs: Vec<Attr> = Vec::new();
            opt_attrs.push(Attr::text("class", "flex flex-col w-full text-base-content bg-base-100"));
            opt_attrs.push(Attr::text_string("data-theme", t.name()));
            let ghost oav = opt_attrs@;
            let mut opt_kids: Vec<Node> = Vec::new();
            opt_kids.push(anchor);
            let ghost okv = opt_kids@;
            let option = Node::element("div", opt_attrs, opt_kids);
            proof {
                lemma_nodes_v(okv);
                assert(attrs_view(oav) =~~= seq![
                    AttrV {
                        name: "class"@,
                        value: AttrValueV::Text(
                            "flex flex-col w-full text-base-content bg-base-100"@,
                        ),
                    },
                    AttrV { name: "data-theme"@, value: AttrValueV::Text(theme_name(t)) },
                ]);
                assert(nodes_v(okv) =~~= seq![theme_anchor_v(t)]);
                assert(option@ == theme_option_v(all_themes()[i as int]));
            }
            options.push(option);
            i = i + 1;
        }

        let mut list_attrs: Vec<Attr> = Vec::new();
        list_attrs.push(Attr::text("tabindex", "0"));
        list_attrs.push(
            Attr::text(
                "class",
                "p-2 artboard shadow max-h-60 overflow-scroll dropdown-content bg-base-100 rounded-md w-64",
            ),
        );
        let ghost sav = list_attrs@;
        let ghost okv2 = options@;
        let list = Node::element("div", list_attrs, options);
        proof {
            lemma_nodes_v(okv2);
            assert(attrs_view(sav) =~~= seq![
                AttrV { name: "tabindex"@, value: AttrValueV::Text("0"@) },
                AttrV {
                    name: "class"@,
                    value: AttrValueV::Text(
                        "p-2 artboard shadow max-h-60 overflow-scroll dropdown-content bg-base-100 rounded-md w-64"@,
                    ),
                },
            ]);
            assert(nodes_v(okv2) =~~= Seq::new(
                all_themes().len(),
                |i: int| theme_option_v(all_themes()[i]),
            ));
            assert(list@ == dropdown_list_v());
        }

        let mut outer_attrs: Vec<Attr> = Vec::new();
        outer_attrs.push(Attr::text("class", "dropdown sm:dropdown-left dropdown-end overflow-visible"));
        let ghost dav = outer_attrs@;
        let mut outer_kids: Vec<Node> = Vec::new();
        outer_kids.push(button);
        outer_kids.push(list);
        let ghost dkv = outer_kids@;
        let r = Node::element("div", outer_attrs, outer_kids);
        proof {
            lemma_nodes_v(dkv);
            assert(attrs_view(dav) =~~= seq![
                AttrV {
                    name: "class"@,
                    value: AttrValueV::Text("dropdown sm:dropdown-left dropdown-end overflow-visible"@),
                },
            ]);
            assert(nodes_v(dkv) =~~= seq![dropdown_button_v(), dropdown_list_v()]);
            assert(r@ == dropdown_v());
        }
        r
    }
}

} // verus!
