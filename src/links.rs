//! The link tree and its menu.
use vstd::prelude::*;
use crate::command::{is_leave_command, leave_command};
use crate::keyboard::{callback_view, column_keyboard, column_layout, rows_of, views, Button, ButtonKind, ButtonView, Keyboard};
use crate::loc::LocaleTag;
use crate::menu::{back_button, back_view};
use crate::notice::{pick, pick_payload};
use crate::states::{reload, reloads_main, redraws, Failure, LinksState, MainState, Outcome, State};
use crate::role::UserRole;
use crate::user::User;
use crate::table::{
    has_key, lemma_lookup_at, link_entries, links_get_index, links_index_of, links_len, links_remove_index,
    lookup, LinkTable,
};
use crate::text::{lower_of, lowercase, strip_slash};

verus! {

/// A titled URL.
#[derive(Debug, Clone)]
pub struct Link {
    pub title: String,
    pub url: String,
}

/// A node of the link tree.
#[derive(Debug)]
pub struct Links {
    pub title: Option<String>,
    pub links: Vec<Link>,
    pub child: LinkTable,
}

} // verus!

verus! {

/// Commands of the links menu.
#[derive(Debug, PartialEq, Eq)]
pub enum LinksMenu {
    /// Open the child node with this id.
    Link(String),
    /// Leave the current node.
    Done,
    /// A payload without a leading slash.
    Unknown(String),
}

/// What the links menu makes of payload `raw`, whose lower-case form is `folded`.
pub open spec fn links_parsed(folded: Seq<char>, raw: Seq<char>, r: LinksMenu) -> bool {
    if is_leave_command(folded) {
        r is Done
    } else if raw.len() > 0 && raw[0] == '/' {
        r matches LinksMenu::Link(t) && t@ == raw.drop_first()
    } else {
        r matches LinksMenu::Unknown(t) && t@ == raw
    }
}

impl LinksMenu {
    /// Reads a payload of the links menu; leaving words in any letter case.
    pub fn parse(s: &str, _loc_tag: LocaleTag) -> (r: Self)
        ensures
            links_parsed(lower_of(s@), s@, r),
    {
        let folded = lowercase(s);
        Self::from_folded(folded.as_str(), s)
    }

    /// Reads a payload given as sent (`raw`) and in lower case (`folded`).
    pub fn from_folded(folded: &str, raw: &str) -> (r: Self)
        ensures
            links_parsed(folded@, raw@, r),
    {
        if leave_command(folded) {
            LinksMenu::Done
        } else {
            match strip_slash(raw) {
                Some(id) => LinksMenu::Link(String::from_str(id)),
                None => LinksMenu::Unknown(String::from_str(raw)),
            }
        }
    }
}

} // verus!

verus! {

/// URL buttons of a node's links.
pub open spec fn url_buttons(l: Seq<Link>) -> Seq<ButtonView> {
    Seq::new(l.len(), |i: int| ButtonView { text: l[i].title@, target: l[i].url@, url: true })
}

/// Buttons that open the titled children, in table order.
pub open spec fn child_buttons(e: Seq<(Seq<char>, Links)>) -> Seq<ButtonView>
    decreases e.len(),
{
    if e.len() == 0 {
        Seq::empty()
    } else {
        let rest = child_buttons(e.drop_last());
        match e.last().1.title {
            Some(t) => rest.push(callback_view(t@, pick_payload(e.last().0))),
            None => rest,
        }
    }
}

/// Keyboard of a node: its links, its titled children, and the back button.
pub open spec fn links_layout(node: Links) -> Seq<Seq<ButtonView>> {
    column_layout(url_buttons(node.links@) + child_buttons(link_entries(node.child)), back_view())
}

/// Text of a node: its title, or a default.
pub open spec fn links_text(node: Links) -> Seq<char> {
    match node.title {
        Some(t) => t@,
        None => "Useful links"@,
    }
}

/// The node reached from `root` through the children with ids `path`.
pub open spec fn node_at(root: Links, path: Seq<Seq<char>>) -> Option<Links>
    decreases path.len(),
{
    if path.len() == 0 {
        Some(root)
    } else {
        match lookup(link_entries(root.child), path[0]) {
            Some(c) => node_at(c, path.drop_first()),
            None => None,
        }
    }
}

/// Texts of a sequence of strings.
pub open spec fn texts(p: Seq<String>) -> Seq<Seq<char>> {
    p.map_values(|s: String| s@)
}

/// The text and keyboard of a node.
pub fn view(node: &Links) -> (r: (String, Keyboard))
    ensures
        r.0@ == links_text(*node),
        rows_of(r.1@) == links_layout(*node),
{
    let mut buttons: Vec<Button> = Vec::new();
    let mut i: usize = 0;
    while i < node.links.len()
        invariant
            i <= node.links@.len(),
            views(buttons@) == url_buttons(node.links@).subrange(0, i as int),
        decreases node.links@.len() - i,
    {
        let l = &node.links[i];
        let b = Button { text: l.title.clone(), kind: ButtonKind::Url(l.url.clone()) };
        let ghost before = buttons@;
        buttons.push(b);
        assert(views(buttons@) =~= views(before).push(b@));
        assert(url_buttons(node.links@).subrange(0, i + 1) =~= url_buttons(node.links@).subrange(0, i as int).push(b@));
        i = i + 1;
    }
    assert(url_buttons(node.links@).subrange(0, i as int) =~= url_buttons(node.links@));
    let ghost urls = views(buttons@);
    let n = links_len(&node.child);
    let mut k: usize = 0;
    while k < n
        invariant
            n == link_entries(node.child).len(),
            k <= n,
            views(buttons@) == urls + child_buttons(link_entries(node.child).subrange(0, k as int)),
        decreases n - k,
    {
        proof {
            let t = link_entries(node.child).subrange(0, k + 1);
            assert(t.drop_last() =~= link_entries(node.child).subrange(0, k as int));
        }
        match links_get_index(&node.child, k) {
            Some(p) => {
                match &p.1.title {
                    Some(t) => {
                        let b = Button { text: t.clone(), kind: ButtonKind::Callback(pick(p.0.as_str())) };
                        let ghost before = buttons@;
                        buttons.push(b);
                        assert(views(buttons@) =~= views(before).push(b@));
                    },
                    None => {},
                }
            },
            None => {},
        }
        k = k + 1;
    }
    assert(link_entries(node.child).subrange(0, n as int) =~= link_entries(node.child));
    let text = match &node.title {
        Some(t) => t.clone(),
        None => String::from_str("Useful links"),
    };
    (text, column_keyboard(buttons, back_button()))
}

/// Whether `r` shows node `node` in the links menu, at `path` with id `level`.
pub open spec fn shows_links(r: Outcome, prev: MainState, chat_id: i64, level: Seq<char>, path: Seq<Seq<char>>, node: Links) -> bool {
    &&& r.state matches State::Links(s) && s.prev_state == prev && s.chat_id == chat_id && s.level@ == level
        && texts(s.path@) == path && s.child == node.child
    &&& r.effects@.len() == 1
    &&& redraws(r.effects@[0], chat_id, links_text(node), Some(links_layout(node)))
    &&& r.failure is None
}

/// Shows `node`, keeping its children for the next step.
pub fn show(prev: MainState, chat_id: i64, level: String, path: Vec<String>, node: Links) -> (r: Outcome)
    ensures
        shows_links(r, prev, chat_id, level@, texts(path@), node),
{
    let (text, keyboard) = view(&node);
    let mut effects = Vec::new();
    effects.push(crate::states::Effect::Redraw { chat_id, text, keyboard: Some(keyboard) });
    Outcome {
        state: State::Links(LinksState { prev_state: prev, level, child: node.child, chat_id, path }),
        effects,
        failure: None,
    }
}

/// Whether `r` shows the node of `root` at `path`, or the root itself when
/// there is no such node.
pub open spec fn shows_node_at(r: Outcome, prev: MainState, chat_id: i64, root: Links, path: Seq<Seq<char>>) -> bool {
    match node_at(root, path) {
        Some(node) => shows_links(r, prev, chat_id, if path.len() == 0 { Seq::empty() } else { path.last() }, path, node),
        None => shows_links(r, prev, chat_id, Seq::empty(), Seq::empty(), root),
    }
}

/// Shows the node of `root` at `path`, or the root itself when there is no such node.
pub fn show_at(prev: MainState, chat_id: i64, root: Links, path: Vec<String>) -> (r: Outcome)
    ensures
        shows_node_at(r, prev, chat_id, root, texts(path@)),
{
    if has_node(&root, &path) {
        let level = if path.len() == 0 {
            String::new()
        } else {
            path[path.len() - 1].clone()
        };
        match descend(root, &path) {
            Some(node) => show(prev, chat_id, level, path, node),
            None => Outcome { state: State::Main(prev), effects: Vec::new(), failure: Some(Failure::NoLinks) },
        }
    } else {
        let empty: Vec<String> = Vec::new();
        assert(texts(empty@) =~= Seq::<Seq<char>>::empty());
        show(prev, chat_id, String::new(), empty, root)
    }
}

/// Opens the links menu from the main menu `prev`, at the root of the tree.
pub fn enter(prev: MainState, chat_id: i64, level: String, root: Option<Links>) -> (r: Outcome)
    ensures
        root is None ==> r.state == State::Main(prev) && r.effects@.len() == 0 && r.failure == Some(Failure::NoLinks),
        root matches Some(t) ==> shows_links(r, prev, chat_id, level@, Seq::empty(), t),
{
    match root {
        None => Outcome { state: State::Main(prev), effects: Vec::new(), failure: Some(Failure::NoLinks) },
        Some(t) => {
            let empty: Vec<String> = Vec::new();
            assert(texts(empty@) =~= Seq::<Seq<char>>::empty());
            show(prev, chat_id, level, empty, t)
        },
    }
}

/// Whether `r` opens child `id` of the node `state` shows: the kept child, or
/// else the node at the longer path read from `root`.
pub open spec fn opens(r: Outcome, state: LinksState, id: Seq<char>, root: Option<Links>) -> bool {
    let path = texts(state.path@).push(id);
    if has_key(link_entries(state.child), id) {
        shows_links(r, state.prev_state, state.chat_id, id, path, lookup(link_entries(state.child), id)->0)
    } else {
        match root {
            Some(t) => shows_node_at(r, state.prev_state, state.chat_id, t, path),
            None => r.state == State::Main(state.prev_state) && r.effects@.len() == 0 && r.failure == Some(Failure::NoLinks),
        }
    }
}

/// Opens child `id` of the node shown.
pub fn open(state: LinksState, id: String, root: Option<Links>) -> (r: Outcome)
    ensures
        opens(r, state, id@, root),
{
    let ghost st = state;
    let LinksState { prev_state, level: _, child, chat_id, path } = state;
    let mut child = child;
    let mut path = path;
    let ghost p0 = path@;
    path.push(id.clone());
    assert(texts(path@) =~= texts(p0).push(id@));
    match links_index_of(&child, id.as_str()) {
        Some(j) => {
            proof {
                lemma_lookup_at(link_entries(child), id@, j as int);
            }
            match links_remove_index(&mut child, j) {
                Some(p) => show(prev_state, chat_id, id, path, p.1),
                None => Outcome { state: State::Main(prev_state), effects: Vec::new(), failure: Some(Failure::NoLinks) },
            }
        },
        None => match root {
            Some(t) => show_at(prev_state, chat_id, t, path),
            None => Outcome { state: State::Main(prev_state), effects: Vec::new(), failure: Some(Failure::NoLinks) },
        },
    }
}

/// Whether `r` goes back from the node `state` shows: to the main menu from
/// the root, else to the parent node read from `root`.
pub open spec fn goes_back(r: Outcome, state: LinksState, roles: Seq<UserRole>, root: Option<Links>) -> bool {
    if state.path@.len() == 0 {
        reloads_main(r, state.prev_state, state.chat_id, roles)
    } else {
        match root {
            Some(t) => shows_node_at(r, state.prev_state, state.chat_id, t, texts(state.path@).drop_last()),
            None => r.state == State::Main(state.prev_state) && r.effects@.len() == 0 && r.failure == Some(Failure::NoLinks),
        }
    }
}

/// Goes back from the node shown: to its parent when it is not the root, to
/// the main menu when it is.
pub fn back(state: LinksState, user: &User, root: Option<Links>) -> (r: Outcome)
    ensures
        goes_back(r, state, user.role@, root),
{
    let LinksState { prev_state, level: _, child: _, chat_id, path } = state;
    if path.len() == 0 {
        return reload(prev_state, chat_id, user);
    }
    let mut path = path;
    let ghost p0 = path@;
    let _ = path.pop();
    assert(texts(path@) =~= texts(p0).drop_last());
    match root {
        Some(t) => show_at(prev_state, chat_id, t, path),
        None => Outcome { state: State::Main(prev_state), effects: Vec::new(), failure: Some(Failure::NoLinks) },
    }
}

/// "Back" in the links menu returns to the main menu from the root, and to the
/// parent node from any deeper node that is still in the tree.
pub proof fn lemma_back_goes_up(r: Outcome, state: LinksState, roles: Seq<UserRole>, root: Links)
    requires
        goes_back(r, state, roles, Some(root)),
        state.path@.len() > 0 ==> node_at(root, texts(state.path@).drop_last()) is Some,
    ensures
        state.path@.len() == 0 ==> r.state == State::Main(state.prev_state),
        state.path@.len() > 0 ==> (r.state matches State::Links(s) && texts(s.path@) == texts(state.path@).drop_last()
            && s.prev_state == state.prev_state),
{
}

/// Whether a node is reached from `root` through `path`.
pub fn has_node(root: &Links, path: &Vec<String>) -> (r: bool)
    ensures
        r == node_at(*root, texts(path@)) is Some,
{
    let mut cur = root;
    let mut i: usize = 0;
    assert(texts(path@).subrange(0, path@.len() as int) =~= texts(path@));
    while i < path.len()
        invariant
            i <= path@.len(),
            node_at(*root, texts(path@)) == node_at(*cur, texts(path@).subrange(i as int, path@.len() as int)),
        decreases path@.len() - i,
    {
        let ghost rest = texts(path@).subrange(i as int, path@.len() as int);
        assert(rest[0] == path@[i as int]@);
        assert(rest.drop_first() =~= texts(path@).subrange(i + 1, path@.len() as int));
        match links_index_of(&cur.child, path[i].as_str()) {
            None => {
                return false;
            },
            Some(j) => {
                proof {
                    lemma_lookup_at(link_entries(cur.child), path@[i as int]@, j as int);
                }
                match links_get_index(&cur.child, j) {
                    Some(p) => {
                        cur = p.1;
                    },
                    None => {
                        return false;
                    },
                }
            },
        }
        i = i + 1;
    }
    assert(texts(path@).subrange(i as int, path@.len() as int) =~= Seq::<Seq<char>>::empty());
    true
}

/// The node reached from `root` through the children with ids `path`.
pub fn descend(root: Links, path: &Vec<String>) -> (r: Option<Links>)
    ensures
        r == node_at(root, texts(path@)),
{
    assert(texts(path@).subrange(0, path@.len() as int) =~= texts(path@));
    descend_from(root, path, 0)
}

fn descend_from(cur: Links, path: &Vec<String>, i: usize) -> (r: Option<Links>)
    requires
        i <= path@.len(),
    ensures
        r == node_at(cur, texts(path@).subrange(i as int, path@.len() as int)),
    decreases path@.len() - i,
{
    let ghost rest = texts(path@).subrange(i as int, path@.len() as int);
    if i == path.len() {
        assert(rest =~= Seq::<Seq<char>>::empty());
        return Some(cur);
    }
    assert(rest[0] == path@[i as int]@);
    assert(rest.drop_first() =~= texts(path@).subrange(i + 1, path@.len() as int));
    let ghost e = link_entries(cur.child);
    let Links { title: _, links: _, child } = cur;
    let mut child = child;
    match links_index_of(&child, path[i].as_str()) {
        None => None,
        Some(j) => {
            proof {
                lemma_lookup_at(e, path@[i as int]@, j as int);
            }
            match links_remove_index(&mut child, j) {
                Some(p) => descend_from(p.1, path, i + 1),
                None => None,
            }
        },
    }
}

} // verus!
