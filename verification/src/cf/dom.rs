//! Where in a page's document tree the challenge is to be clicked.
use crate::text::{
    declares, eq_ignore_ascii_case, is_white, law_declaration_is_found, law_nothing_else_declares,
    same_ignoring_ascii_case, sets_property, str_eq,
};
use vstd::prelude::*;

verus! {

/// A node of the document tree, closed shadow roots included.
pub struct DomNode {
    pub node_id: i64,
    /// The name of the element, in any ASCII case; that of no element for any other node.
    pub tag: String,
    /// Attribute names and values in turn.
    pub attributes: Vec<String>,
    pub children: Vec<DomNode>,
    pub shadow_roots: Vec<DomNode>,
}

/// Whether the attribute at position `i` of the list of pairs has that name.
pub open spec fn pair_named(attributes: Seq<String>, i: int, name: Seq<char>) -> bool {
    &&& 0 <= i
    &&& 2 * i + 1 < attributes.len()
    &&& attributes[2 * i]@ == name
}

impl DomNode {
    /// Whether the node is the input element that receives the challenge's answer.
    pub open spec fn is_answer_field(self) -> bool {
        &&& same_ignoring_ascii_case(self.tag@, "input"@)
        &&& exists|i: int| #[trigger]
            pair_named(self.attributes@, i, "name"@) && self.attributes@[2 * i + 1]@
                == "cf-turnstile-response"@
    }

    /// Whether the node's style hides it: it holds `display:none`, with white space around the
    /// colon or without.
    pub open spec fn is_hidden(self) -> bool {
        exists|i: int| #[trigger]
            pair_named(self.attributes@, i, "style"@) && declares(
                self.attributes@[2 * i + 1]@,
                "display"@,
                "none"@,
            )
    }

    /// Whether the node hosts the challenge: the answer field is one of its direct children.
    pub open spec fn is_challenge_host(self) -> bool {
        exists|i: int| 0 <= i < self.children@.len() && #[trigger]
            self.children@[i].is_answer_field()
    }

    /// The visible challenge element in the first shadow root of a challenge host.
    pub open spec fn own_target(self) -> Option<i64> {
        if self.is_challenge_host() && self.shadow_roots@.len() > 0 {
            first_visible(self.shadow_roots@[0].children@)
        } else {
            None
        }
    }

    /// The node to click in the tree below this node, itself included: its own, then that of
    /// its children, then that of the children of its shadow roots.
    pub open spec fn target(self) -> Option<i64>
        decreases self,
    {
        if self.own_target() is Some {
            self.own_target()
        } else if first_target(self.children@) is Some {
            first_target(self.children@)
        } else {
            first_shadow_target(self.shadow_roots@)
        }
    }
}

/// The first node that is not hidden.
pub open spec fn first_visible(nodes: Seq<DomNode>) -> Option<i64>
    decreases nodes.len(),
{
    if nodes.len() == 0 {
        None
    } else if !nodes[0].is_hidden() {
        Some(nodes[0].node_id)
    } else {
        first_visible(nodes.skip(1))
    }
}

/// The target in the first of the trees that has one.
pub open spec fn first_target(nodes: Seq<DomNode>) -> Option<i64>
    decreases nodes,
{
    if nodes.len() == 0 {
        None
    } else if nodes[0].target() is Some {
        nodes[0].target()
    } else {
        first_target(nodes.skip(1))
    }
}

/// The target below the first of the shadow roots that has one.
pub open spec fn first_shadow_target(roots: Seq<DomNode>) -> Option<i64>
    decreases roots,
{
    if roots.len() == 0 {
        None
    } else if first_target(roots[0].children@) is Some {
        first_target(roots[0].children@)
    } else {
        first_shadow_target(roots.skip(1))
    }
}

fn is_answer_field(node: &DomNode) -> (r: bool)
    ensures
        r == node.is_answer_field(),
{
    if !eq_ignore_ascii_case(node.tag.as_str(), "input") {
        return false;
    }
    let attributes = &node.attributes;
    let mut i: usize = 0;
    while i < attributes.len() / 2
        invariant
            i <= attributes@.len() / 2,
            attributes@ == node.attributes@,
            same_ignoring_ascii_case(node.tag@, "input"@),
            forall|j: int| #![trigger pair_named(attributes@, j, "name"@)]
                0 <= j < i ==> !(pair_named(attributes@, j, "name"@) && attributes@[2 * j + 1]@
                    == "cf-turnstile-response"@),
        decreases attributes@.len() / 2 - i,
    {
        if str_eq(attributes[2 * i].as_str(), "name") && str_eq(
            attributes[2 * i + 1].as_str(),
            "cf-turnstile-response",
        ) {
            assert(pair_named(attributes@, i as int, "name"@));
            return true;
        }
        i += 1;
    }
    false
}

fn is_hidden(node: &DomNode) -> (r: bool)
    ensures
        r == node.is_hidden(),
{
    let attributes = &node.attributes;
    let mut i: usize = 0;
    while i < attributes.len() / 2
        invariant
            i <= attributes@.len() / 2,
            attributes@ == node.attributes@,
            forall|j: int| #![trigger pair_named(attributes@, j, "style"@)]
                0 <= j < i ==> !(pair_named(attributes@, j, "style"@) && declares(
                    attributes@[2 * j + 1]@,
                    "display"@,
                    "none"@,
                )),
        decreases attributes@.len() / 2 - i,
    {
        if str_eq(attributes[2 * i].as_str(), "style") && sets_property(
            attributes[2 * i + 1].as_str(),
            "display",
            "none",
        ) {
            assert(pair_named(attributes@, i as int, "style"@));
            return true;
        }
        i += 1;
    }
    false
}

fn is_challenge_host(node: &DomNode) -> (r: bool)
    ensures
        r == node.is_challenge_host(),
{
    let mut i: usize = 0;
    while i < node.children.len()
        invariant
            i <= node.children@.len(),
            forall|j: int| 0 <= j < i ==> !(#[trigger] node.children@[j].is_answer_field()),
        decreases node.children@.len() - i,
    {
        if is_answer_field(&node.children[i]) {
            return true;
        }
        i += 1;
    }
    false
}

fn find_visible(nodes: &Vec<DomNode>) -> (r: Option<i64>)
    ensures
        r == first_visible(nodes@),
{
    let mut i: usize = 0;
    assert(nodes@.skip(0) =~= nodes@);
    while i < nodes.len()
        invariant
            i <= nodes@.len(),
            first_visible(nodes@.skip(i as int)) == first_visible(nodes@),
        decreases nodes@.len() - i,
    {
        if !is_hidden(&nodes[i]) {
            return Some(nodes[i].node_id);
        }
        assert(nodes@.skip(i as int).skip(1) =~= nodes@.skip(i + 1));
        i += 1;
    }
    None
}

/// Finds the node to click for the challenge, as the browser lays it out: a node that has the
/// answer field among its direct children hosts a closed shadow root, and the first child of
/// that root that is not hidden is the challenge.
pub fn find_shadow_challenge_node(node: &DomNode) -> (r: Option<i64>)
    ensures
        r == node.target(),
    decreases node, 0int,
{
    if is_challenge_host(node) && node.shadow_roots.len() > 0 {
        if let Some(id) = find_visible(&node.shadow_roots[0].children) {
            return Some(id);
        }
    }
    if let Some(id) = find_in_trees(&node.children) {
        return Some(id);
    }
    let roots = &node.shadow_roots;
    let mut i: usize = 0;
    assert(roots@.skip(0) =~= roots@);
    while i < roots.len()
        invariant
            *roots == node.shadow_roots,
            node.target() == first_shadow_target(roots@),
            i <= roots@.len(),
            first_shadow_target(roots@.skip(i as int)) == first_shadow_target(roots@),
        decreases roots@.len() - i,
    {
        proof {
            assert(decreases_to!(node => node.shadow_roots@[i as int].children));
        }
        if let Some(id) = find_in_trees(&roots[i].children) {
            return Some(id);
        }
        assert(roots@.skip(i as int).skip(1) =~= roots@.skip(i + 1));
        i += 1;
    }
    None
}

fn find_in_trees(nodes: &Vec<DomNode>) -> (r: Option<i64>)
    ensures
        r == first_target(nodes@),
    decreases nodes, 1int,
{
    let mut i: usize = 0;
    assert(nodes@.skip(0) =~= nodes@);
    while i < nodes.len()
        invariant
            i <= nodes@.len(),
            first_target(nodes@.skip(i as int)) == first_target(nodes@),
        decreases nodes@.len() - i,
    {
        if let Some(id) = find_shadow_challenge_node(&nodes[i]) {
            return Some(id);
        }
        assert(nodes@.skip(i as int).skip(1) =~= nodes@.skip(i + 1));
        i += 1;
    }
    None
}

/// Whether `node` stands in the tree below `tree`, itself included. A shadow root itself is no
/// node of the tree; what it holds is.
pub open spec fn in_tree(tree: DomNode, node: DomNode) -> bool
    decreases tree,
{
    ||| tree == node
    ||| in_trees(tree.children@, node)
    ||| in_shadows(tree.shadow_roots@, node)
}

/// Whether `node` stands in one of the trees.
pub open spec fn in_trees(trees: Seq<DomNode>, node: DomNode) -> bool
    decreases trees,
{
    trees.len() > 0 && (in_tree(trees[0], node) || in_trees(trees.skip(1), node))
}

/// Whether `node` stands below one of the shadow roots.
pub open spec fn in_shadows(roots: Seq<DomNode>, node: DomNode) -> bool
    decreases roots,
{
    roots.len() > 0 && (in_trees(roots[0].children@, node) || in_shadows(roots.skip(1), node))
}

/// Whether `node` is a challenge host that shows the challenge element `id`: the first child of
/// its first shadow root that is not hidden.
pub open spec fn shows(node: DomNode, id: i64) -> bool {
    &&& node.is_challenge_host()
    &&& node.shadow_roots@.len() > 0
    &&& exists|k: int|
        {
            &&& 0 <= k < node.shadow_roots@[0].children@.len()
            &&& !(#[trigger] node.shadow_roots@[0].children@[k].is_hidden())
            &&& node.shadow_roots@[0].children@[k].node_id == id
            &&& forall|j: int|
                0 <= j < k ==> #[trigger] node.shadow_roots@[0].children@[j].is_hidden()
        }
}

proof fn lemma_first_visible(nodes: Seq<DomNode>)
    ensures
        match first_visible(nodes) {
            Some(id) => exists|k: int|
                {
                    &&& 0 <= k < nodes.len()
                    &&& !(#[trigger] nodes[k].is_hidden())
                    &&& nodes[k].node_id == id
                    &&& forall|j: int| 0 <= j < k ==> #[trigger] nodes[j].is_hidden()
                },
            None => forall|j: int| 0 <= j < nodes.len() ==> #[trigger] nodes[j].is_hidden(),
        },
    decreases nodes.len(),
{
    if nodes.len() > 0 {
        if !nodes[0].is_hidden() {
            assert(!nodes[0].is_hidden());
        } else {
            let rest = nodes.skip(1);
            lemma_first_visible(rest);
            match first_visible(rest) {
                Some(id) => {
                    let k = choose|k: int|
                        {
                            &&& 0 <= k < rest.len()
                            &&& !(#[trigger] rest[k].is_hidden())
                            &&& rest[k].node_id == id
                            &&& forall|j: int| 0 <= j < k ==> #[trigger] rest[j].is_hidden()
                        };
                    assert(!nodes[k + 1].is_hidden());
                    assert forall|j: int| 0 <= j < k + 1 implies #[trigger] nodes[j].is_hidden() by {
                        if j > 0 {
                            assert(rest[j - 1].is_hidden());
                        }
                    }
                },
                None => {
                    assert forall|j: int| 0 <= j < nodes.len() implies #[trigger] nodes[j].is_hidden() by {
                        if j > 0 {
                            assert(rest[j - 1].is_hidden());
                        }
                    }
                },
            }
        }
    }
}

/// What is found to be clicked is the challenge element of some challenge host in the tree.
pub proof fn law_target_is_shown(tree: DomNode)
    ensures
        match tree.target() {
            Some(id) => exists|host: DomNode| #[trigger] in_tree(tree, host) && shows(host, id),
            None => true,
        },
    decreases tree,
{
    if tree.target() is Some {
        let id = tree.target()->0;
        if tree.own_target() is Some {
            lemma_first_visible(tree.shadow_roots@[0].children@);
            assert(in_tree(tree, tree) && shows(tree, id));
        } else if first_target(tree.children@) is Some {
            lemma_first_target_is_shown(tree.children@);
            let host = choose|host: DomNode| #[trigger]
                in_trees(tree.children@, host) && shows(host, id);
            assert(in_tree(tree, host));
        } else {
            lemma_first_shadow_target_is_shown(tree.shadow_roots@);
            let host = choose|host: DomNode| #[trigger]
                in_shadows(tree.shadow_roots@, host) && shows(host, id);
            assert(in_tree(tree, host));
        }
    }
}

proof fn lemma_first_target_is_shown(nodes: Seq<DomNode>)
    ensures
        match first_target(nodes) {
            Some(id) => exists|host: DomNode| #[trigger] in_trees(nodes, host) && shows(host, id),
            None => true,
        },
    decreases nodes,
{
    if first_target(nodes) is Some {
        let id = first_target(nodes)->0;
        if nodes[0].target() is Some {
            law_target_is_shown(nodes[0]);
            let host = choose|host: DomNode| #[trigger] in_tree(nodes[0], host) && shows(host, id);
            assert(in_trees(nodes, host));
        } else {
            lemma_first_target_is_shown(nodes.skip(1));
            let host = choose|host: DomNode| #[trigger]
                in_trees(nodes.skip(1), host) && shows(host, id);
            assert(in_trees(nodes, host));
        }
    }
}

proof fn lemma_first_shadow_target_is_shown(roots: Seq<DomNode>)
    ensures
        match first_shadow_target(roots) {
            Some(id) => exists|host: DomNode| #[trigger] in_shadows(roots, host) && shows(host, id),
            None => true,
        },
    decreases roots,
{
    if first_shadow_target(roots) is Some {
        let id = first_shadow_target(roots)->0;
        if first_target(roots[0].children@) is Some {
            lemma_first_target_is_shown(roots[0].children@);
            let host = choose|host: DomNode| #[trigger]
                in_trees(roots[0].children@, host) && shows(host, id);
            assert(in_shadows(roots, host));
        } else {
            lemma_first_shadow_target_is_shown(roots.skip(1));
            let host = choose|host: DomNode| #[trigger]
                in_shadows(roots.skip(1), host) && shows(host, id);
            assert(in_shadows(roots, host));
        }
    }
}

/// Nothing is found only where no challenge host in the tree shows a challenge element.
pub proof fn law_no_target_means_none_is_shown(tree: DomNode, node: DomNode, id: i64)
    requires
        tree.target() is None,
        in_tree(tree, node),
    ensures
        !shows(node, id),
    decreases tree,
{
    if tree == node {
        if shows(node, id) {
            lemma_first_visible(tree.shadow_roots@[0].children@);
        }
    } else if in_trees(tree.children@, node) {
        lemma_no_first_target(tree.children@, node, id);
    } else {
        lemma_no_first_shadow_target(tree.shadow_roots@, node, id);
    }
}

proof fn lemma_no_first_target(nodes: Seq<DomNode>, node: DomNode, id: i64)
    requires
        first_target(nodes) is None,
        in_trees(nodes, node),
    ensures
        !shows(node, id),
    decreases nodes,
{
    if in_tree(nodes[0], node) {
        law_no_target_means_none_is_shown(nodes[0], node, id);
    } else {
        lemma_no_first_target(nodes.skip(1), node, id);
    }
}

proof fn lemma_no_first_shadow_target(roots: Seq<DomNode>, node: DomNode, id: i64)
    requires
        first_shadow_target(roots) is None,
        in_shadows(roots, node),
    ensures
        !shows(node, id),
    decreases roots,
{
    if in_trees(roots[0].children@, node) {
        lemma_no_first_target(roots[0].children@, node, id);
    } else {
        lemma_no_first_shadow_target(roots.skip(1), node, id);
    }
}

/// The name of an input element, each of its letters in either case.
pub open spec fn names_input(tag: Seq<char>) -> bool {
    &&& tag.len() == 5
    &&& tag[0] == 'i' || tag[0] == 'I'
    &&& tag[1] == 'n' || tag[1] == 'N'
    &&& tag[2] == 'p' || tag[2] == 'P'
    &&& tag[3] == 'u' || tag[3] == 'U'
    &&& tag[4] == 't' || tag[4] == 'T'
}

proof fn lemma_names_input(tag: Seq<char>)
    ensures
        same_ignoring_ascii_case(tag, "input"@) <==> names_input(tag),
{
    reveal_strlit("input");
    if names_input(tag) {
        assert forall|x: int| 0 <= x < tag.len() implies crate::text::ascii_lower(#[trigger] tag[x])
            == crate::text::ascii_lower("input"@[x]) by {
            assert(x == 0 || x == 1 || x == 2 || x == 3 || x == 4);
        }
    }
    if same_ignoring_ascii_case(tag, "input"@) {
        assert(crate::text::ascii_lower(tag[0]) == crate::text::ascii_lower("input"@[0]));
        assert(crate::text::ascii_lower(tag[1]) == crate::text::ascii_lower("input"@[1]));
        assert(crate::text::ascii_lower(tag[2]) == crate::text::ascii_lower("input"@[2]));
        assert(crate::text::ascii_lower(tag[3]) == crate::text::ascii_lower("input"@[3]));
        assert(crate::text::ascii_lower(tag[4]) == crate::text::ascii_lower("input"@[4]));
    }
}

/// A node hosts the challenge by any of its direct children, at whatever place, that is an input
/// element named `cf-turnstile-response`, at whatever place among its attributes; what is clicked
/// is then the first child of the first shadow root that is not hidden, whatever else stands in
/// the tree.
pub proof fn law_host_is_clicked(node: DomNode, i: int, j: int, k: int)
    requires
        0 <= i < node.children@.len(),
        names_input(node.children@[i].tag@),
        0 <= j,
        2 * j + 1 < node.children@[i].attributes@.len(),
        node.children@[i].attributes@[2 * j]@ == "name"@,
        node.children@[i].attributes@[2 * j + 1]@ == "cf-turnstile-response"@,
        node.shadow_roots@.len() > 0,
        0 <= k < node.shadow_roots@[0].children@.len(),
        !node.shadow_roots@[0].children@[k].is_hidden(),
        forall|m: int|
            0 <= m < k ==> #[trigger] node.shadow_roots@[0].children@[m].is_hidden(),
    ensures
        node.target() == Some(node.shadow_roots@[0].children@[k].node_id),
{
    let child = node.children@[i];
    lemma_names_input(child.tag@);
    assert(pair_named(child.attributes@, j, "name"@));
    assert(child.is_answer_field());
    assert(node.is_challenge_host());
    lemma_first_visible_at(node.shadow_roots@[0].children@, k);
}

/// The same of the search itself: it finds the first child of the first shadow root that is not
/// hidden, at whatever place the answer field stands among the children of the node.
pub proof fn law_host_is_found(node: &DomNode, i: int, j: int, k: int, found: Option<i64>)
    requires
        call_ensures(find_shadow_challenge_node, (node,), found),
        0 <= i < node.children@.len(),
        names_input(node.children@[i].tag@),
        0 <= j,
        2 * j + 1 < node.children@[i].attributes@.len(),
        node.children@[i].attributes@[2 * j]@ == "name"@,
        node.children@[i].attributes@[2 * j + 1]@ == "cf-turnstile-response"@,
        node.shadow_roots@.len() > 0,
        0 <= k < node.shadow_roots@[0].children@.len(),
        !node.shadow_roots@[0].children@[k].is_hidden(),
        forall|m: int|
            0 <= m < k ==> #[trigger] node.shadow_roots@[0].children@[m].is_hidden(),
    ensures
        found == Some(node.shadow_roots@[0].children@[k].node_id),
{
    law_host_is_clicked(*node, i, j, k);
}

proof fn lemma_first_visible_at(nodes: Seq<DomNode>, k: int)
    requires
        0 <= k < nodes.len(),
        !nodes[k].is_hidden(),
        forall|m: int| 0 <= m < k ==> #[trigger] nodes[m].is_hidden(),
    ensures
        first_visible(nodes) == Some(nodes[k].node_id),
    decreases k,
{
    if k > 0 {
        assert(nodes[0].is_hidden());
        let rest = nodes.skip(1);
        assert forall|m: int| 0 <= m < k - 1 implies #[trigger] rest[m].is_hidden() by {
            assert(rest[m] == nodes[m + 1]);
        }
        lemma_first_visible_at(rest, k - 1);
    }
}

/// A node whose style holds `display:none`, with white space around the colon or without, is
/// hidden, wherever the style stands among its attributes and whatever else it says.
pub proof fn law_display_none_hides(
    node: DomNode,
    j: int,
    before: Seq<char>,
    white1: Seq<char>,
    white2: Seq<char>,
    after: Seq<char>,
)
    requires
        0 <= j,
        2 * j + 1 < node.attributes@.len(),
        node.attributes@[2 * j]@ == "style"@,
        node.attributes@[2 * j + 1]@ == before + "display"@ + white1 + seq![':'] + white2
            + "none"@ + after,
        forall|i: int| 0 <= i < white1.len() ==> is_white(#[trigger] white1[i]),
        forall|i: int| 0 <= i < white2.len() ==> is_white(#[trigger] white2[i]),
    ensures
        node.is_hidden(),
{
    reveal_strlit("none");
    law_declaration_is_found(before, "display"@, white1, white2, "none"@, after);
    assert(pair_named(node.attributes@, j, "style"@));
}

/// Nothing else hides a node: one of its styles holds `display`, a colon and `none`, with nothing
/// but white space between them.
pub proof fn law_nothing_else_hides(node: DomNode)
    requires
        node.is_hidden(),
    ensures
        exists|
            j: int,
            before: Seq<char>,
            white1: Seq<char>,
            white2: Seq<char>,
            after: Seq<char>,
        |
            {
                &&& 0 <= j
                &&& 2 * j + 1 < node.attributes@.len()
                &&& (#[trigger] node.attributes@[2 * j])@ == "style"@
                &&& node.attributes@[2 * j + 1]@ == #[trigger] (before + "display"@ + white1 + seq![
                    ':',
                ] + white2 + "none"@ + after)
                &&& forall|i: int| 0 <= i < white1.len() ==> is_white(#[trigger] white1[i])
                &&& forall|i: int| 0 <= i < white2.len() ==> is_white(#[trigger] white2[i])
            },
{
    let j = choose|j: int| #[trigger]
        pair_named(node.attributes@, j, "style"@) && declares(
            node.attributes@[2 * j + 1]@,
            "display"@,
            "none"@,
        );
    let style = node.attributes@[2 * j + 1]@;
    law_nothing_else_declares(style, "display"@, "none"@);
    assert(node.attributes@[2 * j]@ == "style"@);
}

/// A node is no host without an input element of that name among its direct children. Then, or if
/// nothing in its first shadow root is to be seen, nothing of its own is clicked: the search goes
/// on in its children, from the first to the last, and then below its shadow roots.
pub proof fn law_search_goes_on(node: DomNode, i: int)
    requires
        ({
            ||| node.shadow_roots@.len() == 0
            ||| forall|m: int|
                0 <= m < node.shadow_roots@[0].children@.len()
                    ==> #[trigger] node.shadow_roots@[0].children@[m].is_hidden()
            ||| forall|c: int, j: int|
                0 <= c < node.children@.len() && names_input(node.children@[c].tag@) && 0 <= j && 2
                    * j + 1 < node.children@[c].attributes@.len()
                    ==> #[trigger] node.children@[c].attributes@[2 * j]@ != "name"@
                    || node.children@[c].attributes@[2 * j + 1]@ != "cf-turnstile-response"@
        }),
        0 <= i <= node.children@.len(),
        forall|m: int| 0 <= m < i ==> (#[trigger] node.children@[m]).target() is None,
    ensures
        i < node.children@.len() && node.children@[i].target() is Some ==> node.target()
            == node.children@[i].target(),
        i == node.children@.len() && node.shadow_roots@.len() == 0 ==> node.target() is None,
        i == node.children@.len() && node.shadow_roots@.len() > 0 ==> node.target()
            == first_shadow_target(node.shadow_roots@),
{
    if node.is_challenge_host() && node.shadow_roots@.len() > 0 {
        let c = choose|c: int| 0 <= c < node.children@.len() && #[trigger]
            node.children@[c].is_answer_field();
        let child = node.children@[c];
        let j = choose|j: int| #[trigger]
            pair_named(child.attributes@, j, "name"@) && child.attributes@[2 * j + 1]@
                == "cf-turnstile-response"@;
        lemma_names_input(child.tag@);
        assert(node.children@[c].attributes@[2 * j]@ == "name"@);
        lemma_first_visible(node.shadow_roots@[0].children@);
    }
    assert(node.own_target() is None);
    lemma_first_target_at(node.children@, i);
}

proof fn lemma_first_target_at(nodes: Seq<DomNode>, i: int)
    requires
        0 <= i <= nodes.len(),
        forall|m: int| 0 <= m < i ==> (#[trigger] nodes[m]).target() is None,
    ensures
        i < nodes.len() && nodes[i].target() is Some ==> first_target(nodes) == nodes[i].target(),
        i == nodes.len() ==> first_target(nodes) is None,
    decreases i,
{
    if i > 0 {
        assert(nodes[0].target() is None);
        let rest = nodes.skip(1);
        assert forall|m: int| 0 <= m < i - 1 implies (#[trigger] rest[m]).target() is None by {
            assert(rest[m] == nodes[m + 1]);
        }
        lemma_first_target_at(rest, i - 1);
        if i < nodes.len() {
            assert(rest[i - 1] == nodes[i]);
        }
    }
}

/// Below shadow roots the search goes through the children of each, one root after the other.
pub proof fn law_shadow_roots_are_searched(roots: Seq<DomNode>, i: int)
    requires
        0 < roots.len(),
        0 <= i <= roots[0].children@.len(),
        forall|m: int| 0 <= m < i ==> (#[trigger] roots[0].children@[m]).target() is None,
    ensures
        i < roots[0].children@.len() && roots[0].children@[i].target() is Some
            ==> first_shadow_target(roots) == roots[0].children@[i].target(),
        i == roots[0].children@.len() ==> first_shadow_target(roots) == first_shadow_target(
            roots.skip(1),
        ),
        first_shadow_target(Seq::empty()) is None,
{
    lemma_first_target_at(roots[0].children@, i);
}

} // verus!
