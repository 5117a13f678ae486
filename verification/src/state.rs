//! The state of a document: its tree, and what the user's actions change between frames.
use crate::dom::{get_attr, is_tag, spec_get_attr, DomData, DomNode, DomNodeView};
use crate::html::{html_document, parse_html, MAX_HTML_BYTES};
use crate::markdown::{markdown_html, markdown_to_html};
use crate::text::{byte_len, contains_text, str_byte_len, str_eq, string_views};
use std::collections::{HashMap, VecDeque};
use vstd::prelude::*;

verus! {

/// A change that the user asked for. `A` is the host toolkit's description of an edit.
#[derive(Debug, Clone, PartialEq, Eq)]
pub enum UpdateMsg<A> {
    /// An edit of the code block with this text.
    TextEditor(String, A),
    /// Set the collapsible section with this id to expanded (`true`) or collapsed.
    DetailsToggle(usize, bool),
}

pub enum UpdateMsgView<A> {
    TextEditor(Seq<char>, A),
    DetailsToggle(usize, bool),
}

impl<A> View for UpdateMsg<A> {
    type V = UpdateMsgView<A>;

    open spec fn view(&self) -> UpdateMsgView<A> {
        match self {
            UpdateMsg::TextEditor(key, action) => UpdateMsgView::TextEditor(key@, *action),
            UpdateMsg::DetailsToggle(id, state) => UpdateMsgView::DetailsToggle(*id, *state),
        }
    }
}

/// The views of a sequence of messages.
pub open spec fn message_views<A>(messages: Seq<UpdateMsg<A>>) -> Seq<UpdateMsgView<A>> {
    messages.map_values(|m: UpdateMsg<A>| m@)
}

/// The views of a sequence of edits, each with the text of its code block.
pub open spec fn edit_views<A>(edits: Seq<(String, A)>) -> Seq<(Seq<char>, A)> {
    edits.map_values(|e: (String, A)| (e.0@, e.1))
}

/// `store` with the texts of `texts` added in order, each only if it is not yet there.
pub open spec fn absorb(store: Seq<Seq<char>>, texts: Seq<Seq<char>>) -> Seq<Seq<char>>
    decreases texts.len(),
{
    if texts.len() == 0 {
        store
    } else {
        let before = absorb(store, texts.drop_last());
        if before.contains(texts.last()) {
            before
        } else {
            before.push(texts.last())
        }
    }
}

/// The texts found below `node` that belong to code, in document order: every text node
/// under a `code` element. `scan_text` tells whether `node` itself is under one.
pub open spec fn code_texts(node: DomNodeView, scan_text: bool) -> Seq<Seq<char>>
    decreases node, node.children.len() + 1,
{
    if node.is_tag("code"@) {
        code_texts_upto(node, true, node.children.len())
    } else if scan_text && node.data is Text {
        seq![node.data->contents]
    } else {
        code_texts_upto(node, scan_text, node.children.len())
    }
}

/// The code texts below the first `upto` children of `node`.
pub open spec fn code_texts_upto(node: DomNodeView, scan_text: bool, upto: nat) -> Seq<Seq<char>>
    decreases node, upto,
{
    if upto == 0 || upto > node.children.len() {
        Seq::empty()
    } else {
        code_texts_upto(node, scan_text, (upto - 1) as nat) + code_texts(
            node.children[upto - 1],
            scan_text,
        )
    }
}

/// The sources of the images below `node`, in document order: the first `src` attribute
/// of each `img` element, where it is not empty.
pub open spec fn image_urls(node: DomNodeView) -> Seq<Seq<char>>
    decreases node, node.children.len() + 1,
{
    if node.is_tag("img"@) {
        match spec_get_attr(node.data->attrs, "src"@) {
            Some(url) => if url.len() > 0 {
                seq![url]
            } else {
                Seq::empty()
            },
            None => Seq::empty(),
        }
    } else {
        image_urls_upto(node, node.children.len())
    }
}

/// The image sources below the first `upto` children of `node`.
pub open spec fn image_urls_upto(node: DomNodeView, upto: nat) -> Seq<Seq<char>>
    decreases node, upto,
{
    if upto == 0 || upto > node.children.len() {
        Seq::empty()
    } else {
        image_urls_upto(node, (upto - 1) as nat) + image_urls(node.children[upto - 1])
    }
}

/// How many `details` elements the tree below `node` holds, `node` included.
pub open spec fn details_total(node: DomNodeView) -> nat
    decreases node, node.children.len() + 1,
{
    details_total_upto(node, node.children.len()) + if node.is_tag("details"@) {
        1nat
    } else {
        0nat
    }
}

/// How many `details` elements the trees below the first `upto` children of `node` hold.
pub open spec fn details_total_upto(node: DomNodeView, upto: nat) -> nat
    decreases node, upto,
{
    if upto == 0 || upto > node.children.len() {
        0
    } else {
        details_total_upto(node, (upto - 1) as nat) + details_total(node.children[upto - 1])
    }
}

/// The states of `count` sections that are all collapsed: the ids below `count`.
pub open spec fn all_collapsed(count: nat) -> Map<usize, bool> {
    Map::new(|id: usize| id < count, |id: usize| false)
}

/// The count as an id: itself, or the largest id where it is beyond all of them.
pub open spec fn capped(count: nat) -> usize {
    if count <= usize::MAX {
        count as usize
    } else {
        usize::MAX
    }
}

/// The states of the collapsible sections after the toggles of `queue`, applied in order.
/// A toggle for an id that the state does not know changes nothing.
pub open spec fn toggled<A>(dropdown: Map<usize, bool>, queue: Seq<UpdateMsgView<A>>) -> Map<
    usize,
    bool,
>
    decreases queue.len(),
{
    if queue.len() == 0 {
        dropdown
    } else {
        let before = toggled(dropdown, queue.drop_last());
        match queue.last() {
            UpdateMsgView::DetailsToggle(id, state) => if before.contains_key(id) {
                before.insert(id, state)
            } else {
                before
            },
            UpdateMsgView::TextEditor(..) => before,
        }
    }
}

/// The edits of `queue` whose code block has editable content, in order.
pub open spec fn accepted_edits<A>(code_blocks: Seq<Seq<char>>, queue: Seq<UpdateMsgView<A>>)
    -> Seq<(Seq<char>, A)>
    decreases queue.len(),
{
    if queue.len() == 0 {
        Seq::empty()
    } else {
        let before = accepted_edits(code_blocks, queue.drop_last());
        match queue.last() {
            UpdateMsgView::TextEditor(key, action) => if code_blocks.contains(key) {
                before.push((key, action))
            } else {
                before
            },
            UpdateMsgView::DetailsToggle(..) => before,
        }
    }
}

/// The state of a document.
pub struct MarkState<A> {
    dom: DomNode,
    /// The texts of the code blocks that have editable content, none of them twice.
    selection_state: Vec<String>,
    /// What was submitted and is not applied yet, oldest first.
    selection_queue: VecDeque<UpdateMsg<A>>,
    /// Whether each collapsible section is expanded, by id.
    dropdown_state: HashMap<usize, bool>,
}

pub struct MarkStateView<A> {
    /// The document tree.
    pub dom: DomNodeView,
    /// The texts of the code blocks that have editable content, none of them twice.
    pub code_blocks: Seq<Seq<char>>,
    /// The changes that were submitted and are not applied yet, oldest first.
    pub queue: Seq<UpdateMsgView<A>>,
    /// Whether each collapsible section is expanded, by id.
    pub dropdown_state: Map<usize, bool>,
}

/// The state of a fresh document: editable content for each distinct code text, nothing
/// pending, and every collapsible section collapsed.
pub open spec fn initial_state<A>(dom: DomNodeView) -> MarkStateView<A> {
    MarkStateView {
        dom,
        code_blocks: absorb(Seq::empty(), code_texts(dom, false)),
        queue: Seq::empty(),
        dropdown_state: all_collapsed(details_total(dom)),
    }
}

impl<A> MarkStateView<A> {
    /// What holds of the state of a document from its construction on: the editable
    /// contents are those of the document's code texts, each once, and every `details`
    /// element of the tree has its state.
    pub open spec fn wf(self) -> bool {
        &&& self.code_blocks == absorb(Seq::empty(), code_texts(self.dom, false))
        &&& self.dropdown_state.dom() =~= all_collapsed(details_total(self.dom)).dom()
    }

    /// The state after the queue has been applied.
    pub open spec fn updated(self) -> MarkStateView<A> {
        MarkStateView {
            queue: Seq::empty(),
            dropdown_state: toggled(self.dropdown_state, self.queue),
            ..self
        }
    }

    /// The state after a change has been queued.
    pub open spec fn submitted(self, msg: UpdateMsgView<A>) -> MarkStateView<A> {
        MarkStateView { queue: self.queue.push(msg), ..self }
    }
}

/// Toggles never change which sections the state knows.
pub proof fn lemma_toggled_dom<A>(dropdown: Map<usize, bool>, queue: Seq<UpdateMsgView<A>>)
    ensures
        toggled(dropdown, queue).dom() =~= dropdown.dom(),
    decreases queue.len(),
{
    if queue.len() > 0 {
        lemma_toggled_dom(dropdown, queue.drop_last());
    }
}

/// A fresh state is well formed, and queueing and applying changes keep it so: no
/// editable content is ever added or removed, and no section is forgotten.
pub proof fn lemma_state_stays_wf<A>(dom: DomNodeView, state: MarkStateView<A>, msg: UpdateMsgView<A>)
    ensures
        initial_state::<A>(dom).wf(),
        state.wf() ==> state.submitted(msg).wf(),
        state.wf() ==> state.updated().wf(),
        state.updated().code_blocks == state.code_blocks,
        state.updated().dom == state.dom,
{
    lemma_toggled_dom(state.dropdown_state, state.queue);
}

impl<A> View for MarkState<A> {
    type V = MarkStateView<A>;

    closed spec fn view(&self) -> MarkStateView<A> {
        MarkStateView {
            dom: self.dom@,
            code_blocks: string_views(self.selection_state@),
            queue: message_views(self.selection_queue@),
            dropdown_state: self.dropdown_state@,
        }
    }
}

/// Absorbing two runs of texts one after the other is absorbing their concatenation.
pub proof fn lemma_absorb_concat(store: Seq<Seq<char>>, a: Seq<Seq<char>>, b: Seq<Seq<char>>)
    ensures
        absorb(absorb(store, a), b) == absorb(store, a + b),
    decreases b.len(),
{
    if b.len() == 0 {
        assert(a + b == a);
    } else {
        lemma_absorb_concat(store, a, b.drop_last());
        assert((a + b).drop_last() == a + b.drop_last());
        assert((a + b).last() == b.last());
    }
}

/// Absorbing keeps the store free of duplicates, and the result holds exactly what the
/// store held or the texts hold.
pub proof fn lemma_absorb_distinct(store: Seq<Seq<char>>, texts: Seq<Seq<char>>)
    requires
        store.no_duplicates(),
    ensures
        absorb(store, texts).no_duplicates(),
        forall|t: Seq<char>|
            absorb(store, texts).contains(t) <==> store.contains(t) || texts.contains(t),
    decreases texts.len(),
{
    if texts.len() > 0 {
        let init = texts.drop_last();
        let last = texts.last();
        lemma_absorb_distinct(store, init);
        let before = absorb(store, init);
        let after = absorb(store, texts);
        assert forall|t: Seq<char>| after.contains(t) <==> store.contains(t) || texts.contains(
            t,
        ) by {
            if texts.contains(t) {
                let i = choose|i: int| 0 <= i < texts.len() && texts[i] == t;
                if i < texts.len() - 1 {
                    assert(init[i] == t);
                    assert(init.contains(t));
                }
            }
            if init.contains(t) {
                let i = choose|i: int| 0 <= i < init.len() && init[i] == t;
                assert(texts[i] == t);
            }
            if before.contains(last) {
            } else {
                assert(after == before.push(last));
                if before.contains(t) {
                    let i = choose|i: int| 0 <= i < before.len() && before[i] == t;
                    assert(after[i] == t);
                }
                assert(after[after.len() - 1] == last);
                assert(texts[texts.len() - 1] == last);
            }
        }
    }
}

/// Toggling a collapsible section that the state knows sets its state and leaves the
/// others; toggling it back restores what was there.
pub proof fn lemma_toggle_round_trip<A>(dropdown: Map<usize, bool>, id: usize)
    requires
        dropdown.contains_key(id),
    ensures
        ({
            let flip = seq![UpdateMsgView::<A>::DetailsToggle(id, !dropdown[id])];
            let back = seq![UpdateMsgView::<A>::DetailsToggle(id, dropdown[id])];
            &&& toggled(dropdown, flip) == dropdown.insert(id, !dropdown[id])
            &&& toggled(toggled(dropdown, flip), back) == dropdown
            &&& toggled(dropdown, flip + back) == dropdown
        }),
{
    let flip = seq![UpdateMsgView::<A>::DetailsToggle(id, !dropdown[id])];
    let back = seq![UpdateMsgView::<A>::DetailsToggle(id, dropdown[id])];
    assert(flip.drop_last() == Seq::<UpdateMsgView<A>>::empty());
    assert(back.drop_last() == Seq::<UpdateMsgView<A>>::empty());
    assert(toggled(dropdown, flip.drop_last()) == dropdown);
    let mid = toggled(dropdown, flip);
    assert(toggled(mid, back.drop_last()) == mid);
    assert(toggled(mid, back) =~= dropdown);
    assert((flip + back).drop_last() == flip);
    assert((flip + back).last() == back[0]);
}

fn find_codeblocks(node: &DomNode, storage: &mut Vec<String>, scan_text: bool)
    ensures
        string_views(final(storage)@) == absorb(
            string_views(old(storage)@),
            code_texts(node@, scan_text),
        ),
    decreases node,
{
    let ghost start = string_views(storage@);
    let is_code = is_tag(node, "code");
    if !is_code && scan_text {
        if let DomData::Text { contents } = &node.data {
            let ghost texts = seq![contents@];
            assert(texts.drop_last() == Seq::<Seq<char>>::empty());
            assert(absorb(start, texts.drop_last()) == start);
            if !contains_text(storage, contents.as_str()) {
                storage.push(contents.clone());
                assert(string_views(storage@) == start.push(contents@));
            }
            return ;
        }
    }
    let scan = is_code || scan_text;
    let mut i: usize = 0;
    while i < node.children.len()
        invariant
            i <= node.children.len(),
            node@.children.len() == node.children@.len(),
            string_views(storage@) == absorb(start, code_texts_upto(node@, scan, i as nat)),
        decreases node.children.len() - i,
    {
        proof {
            node.lemma_child(i as int);
            lemma_absorb_concat(
                start,
                code_texts_upto(node@, scan, i as nat),
                code_texts(node.children@[i as int]@, scan),
            );
        }
        find_codeblocks(&node.children[i], storage, scan);
        i = i + 1;
    }
}

fn find_image_links(node: &DomNode, storage: &mut Vec<String>)
    ensures
        string_views(final(storage)@) == absorb(string_views(old(storage)@), image_urls(node@)),
    decreases node,
{
    let ghost start = string_views(storage@);
    if let DomData::Element { name, attrs } = &node.data {
        if str_eq(name.as_str(), "img") {
            if let Some(url) = get_attr(attrs, "src") {
                if url.unicode_len() > 0 {
                    let ghost texts = seq![url@];
                    assert(texts.drop_last() == Seq::<Seq<char>>::empty());
                    assert(absorb(start, texts.drop_last()) == start);
                    if !contains_text(storage, url) {
                        storage.push(url.to_owned());
                        assert(string_views(storage@) == start.push(url@));
                    }
                }
            }
            return ;
        }
    }
    let mut i: usize = 0;
    while i < node.children.len()
        invariant
            i <= node.children.len(),
            node@.children.len() == node.children@.len(),
            string_views(storage@) == absorb(start, image_urls_upto(node@, i as nat)),
        decreases node.children.len() - i,
    {
        proof {
            node.lemma_child(i as int);
            lemma_absorb_concat(
                start,
                image_urls_upto(node@, i as nat),
                image_urls(node.children@[i as int]@),
            );
        }
        find_image_links(&node.children[i], storage);
        i = i + 1;
    }
}

fn find_details(
    node: &DomNode,
    storage: &mut HashMap<usize, bool>,
    next: usize,
    Ghost(count): Ghost<nat>,
) -> (after: usize)
    requires
        old(storage)@ == all_collapsed(count),
        next == capped(count),
    ensures
        final(storage)@ == all_collapsed(count + details_total(node@)),
        after == capped(count + details_total(node@)),
    decreases node,
{
    broadcast use vstd::std_specs::hash::group_hash_axioms;

    let mut next = next;
    let mut i: usize = 0;
    while i < node.children.len()
        invariant
            i <= node.children.len(),
            node@.children.len() == node.children@.len(),
            storage@ == all_collapsed(count + details_total_upto(node@, i as nat)),
            next == capped(count + details_total_upto(node@, i as nat)),
        decreases node.children.len() - i,
    {
        proof {
            node.lemma_child(i as int);
        }
        next = find_details(
            &node.children[i],
            storage,
            next,
            Ghost(count + details_total_upto(node@, i as nat)),
        );
        i = i + 1;
    }
    if is_tag(node, "details") {
        let ghost before = count + details_total_upto(node@, node@.children.len());
        storage.insert(next, false);
        assert(storage@ =~= all_collapsed(before + 1));
        if next < usize::MAX {
            next = next + 1;
        }
    }
    next
}

impl<A> MarkState<A> {
    /// The state of a document that is given as a tree.
    pub fn from_document(dom: DomNode) -> (state: Self)
        ensures
            state@ == initial_state::<A>(dom@),
            state@.wf(),
            state@.code_blocks.no_duplicates(),
            forall|text: Seq<char>|
                state@.code_blocks.contains(text) <==> code_texts(dom@, false).contains(text),
    {
        broadcast use vstd::std_specs::hash::group_hash_axioms;

        proof {
            lemma_absorb_distinct(Seq::empty(), code_texts(dom@, false));
        }
        let mut selection_state: Vec<String> = Vec::new();
        find_codeblocks(&dom, &mut selection_state, false);
        let mut dropdown_state: HashMap<usize, bool> = HashMap::new();
        assert(dropdown_state@ =~= all_collapsed(0));
        find_details(&dom, &mut dropdown_state, 0, Ghost(0));
        let selection_queue: VecDeque<UpdateMsg<A>> = VecDeque::new();
        assert(string_views(Seq::<String>::empty()) == Seq::<Seq<char>>::empty());
        let state = MarkState { dom, selection_state, selection_queue, dropdown_state };
        assert(state@.queue == Seq::<UpdateMsgView<A>>::empty());
        assert(state@.dropdown_state == all_collapsed(details_total(dom@)));
        state
    }

    /// Reads a document that is pure HTML, of at most `MAX_HTML_BYTES` bytes.
    pub fn with_html(input: &str) -> (state: Self)
        requires
            byte_len(input@) <= MAX_HTML_BYTES,
        ensures
            state@ == initial_state::<A>(html_document(input@)),
            state@.wf(),
    {
        Self::from_document(parse_html(input))
    }

    /// Reads a document that mixes Markdown and HTML. The Markdown is rendered to HTML
    /// first, with strikethrough, task lists, superscript, subscript, underline and
    /// CJK-friendly emphasis switched on, and with raw HTML let through. There is no
    /// state where that HTML is longer than `MAX_HTML_BYTES` bytes.
    pub fn with_html_and_markdown(input: &str) -> (state: Option<Self>)
        ensures
            ({
                let html = markdown_html(input@, true, true, true, true, true, true, true);
                match state {
                    Some(state) => byte_len(html) <= MAX_HTML_BYTES && state@ == initial_state::<
                        A,
                    >(html_document(html)) && state@.wf(),
                    None => byte_len(html) > MAX_HTML_BYTES,
                }
            }),
    {
        let html = markdown_to_html(input, true, true, true, true, true, true, true);
        if str_byte_len(html.as_str()) <= MAX_HTML_BYTES {
            Some(Self::with_html(html.as_str()))
        } else {
            None
        }
    }

    /// The document tree.
    pub fn dom(&self) -> (dom: &DomNode)
        ensures
            dom@ == self@.dom,
    {
        &self.dom
    }

    /// The texts of the code blocks that have editable content.
    pub fn code_blocks(&self) -> (keys: &Vec<String>)
        ensures
            string_views(keys@) == self@.code_blocks,
    {
        &self.selection_state
    }

    /// Whether each collapsible section is expanded, by id.
    pub fn dropdown_state(&self) -> (states: &HashMap<usize, bool>)
        ensures
            states@ == self@.dropdown_state,
    {
        &self.dropdown_state
    }

    /// How many changes wait for the next `update`.
    pub fn pending(&self) -> (n: usize)
        ensures
            n == self@.queue.len(),
    {
        self.selection_queue.len()
    }

    /// Queues a change. Nothing else happens until the next `update`.
    pub fn submit(&mut self, msg: UpdateMsg<A>)
        ensures
            final(self)@ == old(self)@.submitted(msg@),
    {
        let ghost before = message_views(self.selection_queue@);
        self.selection_queue.push_back(msg);
        assert(message_views(self.selection_queue@) == before.push(msg@));
    }

    /// Applies what was queued, oldest first, and leaves the queue empty. Toggles set the
    /// state of their section. Edits are handed back for the host to perform on the
    /// editable content of their code block; an edit or a toggle whose target the state
    /// does not know is dropped.
    pub fn update(&mut self) -> (edits: Vec<(String, A)>)
        ensures
            final(self)@ == old(self)@.updated(),
            edit_views(edits@) == accepted_edits(old(self)@.code_blocks, old(self)@.queue),
    {
        broadcast use vstd::std_specs::hash::group_hash_axioms;

        let ghost queue = message_views(self.selection_queue@);
        let ghost start = self.dropdown_state@;
        let ghost keys = string_views(self.selection_state@);
        let ghost mut done: Seq<UpdateMsgView<A>> = Seq::empty();
        let mut edits: Vec<(String, A)> = Vec::new();
        assert(edit_views(edits@) == Seq::<(Seq<char>, A)>::empty());
        assert(queue == done + message_views(self.selection_queue@));
        while self.selection_queue.len() > 0
            invariant
                self.dom == old(self).dom,
                self.selection_state == old(self).selection_state,
                keys == string_views(self.selection_state@),
                queue == done + message_views(self.selection_queue@),
                self.dropdown_state@ == toggled(start, done),
                edit_views(edits@) == accepted_edits(keys, done),
            decreases self.selection_queue@.len(),
        {
            let ghost rest = message_views(self.selection_queue@);
            let ghost shown = edit_views(edits@);
            let next = self.selection_queue.pop_front();
            if let Some(msg) = next {
                proof {
                    assert(rest[0] == msg@);
                    assert(done + rest == done.push(msg@) + message_views(
                        self.selection_queue@,
                    ));
                    assert(done.push(msg@).drop_last() == done);
                    done = done.push(msg@);
                }
                match msg {
                    UpdateMsg::TextEditor(key, action) => {
                        if contains_text(&self.selection_state, key.as_str()) {
                            edits.push((key, action));
                            assert(edit_views(edits@) == shown.push((key@, action)));
                        }
                    },
                    UpdateMsg::DetailsToggle(id, state) => {
                        if self.dropdown_state.contains_key(&id) {
                            self.dropdown_state.insert(id, state);
                        }
                    },
                }
            }
        }
        assert(message_views(self.selection_queue@) == Seq::<UpdateMsgView<A>>::empty());
        assert(done + Seq::<UpdateMsgView<A>>::empty() == done);
        edits
    }

    /// All image sources of the document, each once, in the order of their first
    /// occurrence.
    pub fn find_image_links(&self) -> (links: Vec<String>)
        ensures
            string_views(links@) == absorb(Seq::empty(), image_urls(self@.dom)),
            string_views(links@).no_duplicates(),
            forall|url: Seq<char>|
                string_views(links@).contains(url) <==> image_urls(self@.dom).contains(url),
    {
        let mut storage: Vec<String> = Vec::new();
        assert(string_views(storage@) == Seq::<Seq<char>>::empty());
        find_image_links(&self.dom, &mut storage);
        proof {
            lemma_absorb_distinct(Seq::empty(), image_urls(self@.dom));
        }
        storage
    }
}

} // verus!
