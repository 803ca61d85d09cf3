//! A model of file-system paths, with the operations that the converter
//! needs: adjoining a name, taking the parent, the file name, its stem and
//! extension, and the text shown for a path.
//!
//! A path is held as the components that `std::path::Path::components`
//! yields, together with the text written around them, so that the text
//! shown for a path is the text it was written with: for each component the
//! text before it since the previous component (separators, `.` segments,
//! and for the root its own separator), and the text after the last one.

use vstd::prelude::*;
use vstd::string::{StrSliceExecFns, StringExecFns};
use crate::text::push_char;

verus! {

/// One component of a path.
#[derive(Debug, PartialEq, Eq)]
pub enum PathComponent {
    /// A platform prefix such as a drive letter, kept as written.
    Prefix(String),
    /// The root directory; the separator it is written with is its lead.
    RootDir,
    /// A leading `.`.
    CurDir,
    /// A `..`.
    ParentDir,
    /// A plain name.
    Normal(String),
}

/// The mathematical value of a [`PathComponent`].
pub enum ComponentView {
    Prefix(Seq<char>),
    RootDir,
    CurDir,
    ParentDir,
    Normal(Seq<char>),
}

impl View for PathComponent {
    type V = ComponentView;

    open spec fn view(&self) -> ComponentView {
        match self {
            PathComponent::Prefix(p) => ComponentView::Prefix(p@),
            PathComponent::RootDir => ComponentView::RootDir,
            PathComponent::CurDir => ComponentView::CurDir,
            PathComponent::ParentDir => ComponentView::ParentDir,
            PathComponent::Normal(n) => ComponentView::Normal(n@),
        }
    }
}

impl PathComponent {
    /// A copy of this component.
    pub fn duplicate(&self) -> (res: PathComponent)
        ensures
            res@ == self@,
    {
        match self {
            PathComponent::Prefix(p) => PathComponent::Prefix(p.clone()),
            PathComponent::RootDir => PathComponent::RootDir,
            PathComponent::CurDir => PathComponent::CurDir,
            PathComponent::ParentDir => PathComponent::ParentDir,
            PathComponent::Normal(n) => PathComponent::Normal(n.clone()),
        }
    }
}

/// A path: its components and the text written around them.
#[derive(Debug, PartialEq, Eq)]
pub struct ProgramPath {
    pub components: Vec<PathComponent>,
    /// For each component, the text written before it since the previous
    /// component (a missing entry stands for no text).
    pub leads: Vec<String>,
    /// The text written after the last component.
    pub tail: String,
    /// The platform's main separator; `/` separates on every platform.
    pub separator: char,
}

/// The mathematical value of a [`ProgramPath`].
pub struct PathView {
    pub parts: Seq<ComponentView>,
    pub leads: Seq<Seq<char>>,
    pub tail: Seq<char>,
    pub separator: char,
}

impl View for ProgramPath {
    type V = PathView;

    open spec fn view(&self) -> PathView {
        PathView {
            parts: self.components@.map_values(|c: PathComponent| c@),
            leads: self.leads@.map_values(|s: String| s@),
            tail: self.tail@,
            separator: self.separator,
        }
    }
}

/// The view of an optional path.
pub open spec fn opt_path(p: Option<ProgramPath>) -> Option<PathView> {
    match p {
        Some(q) => Some(q@),
        None => None,
    }
}

/// The views of a list of paths.
pub open spec fn paths_view(v: Seq<ProgramPath>) -> Seq<PathView> {
    v.map_values(|p: ProgramPath| p@)
}

/// Whether `c` separates components where `sep` is the main separator.
pub open spec fn is_separator(c: char, sep: char) -> bool {
    c == '/' || c == sep
}

/// The text written before the `i`-th component.
pub open spec fn lead_at(p: PathView, i: int) -> Seq<char> {
    if 0 <= i < p.leads.len() {
        p.leads[i]
    } else {
        Seq::empty()
    }
}

/// The text of a component itself.
pub open spec fn component_text(c: ComponentView) -> Seq<char> {
    match c {
        ComponentView::Prefix(t) => t,
        ComponentView::RootDir => Seq::empty(),
        ComponentView::CurDir => seq!['.'],
        ComponentView::ParentDir => seq!['.', '.'],
        ComponentView::Normal(n) => n,
    }
}

/// The text of the path up to the end of its `n`-th component.
pub open spec fn text_upto(p: PathView, n: int) -> Seq<char>
    decreases n,
{
    if n <= 0 {
        Seq::empty()
    } else {
        text_upto(p, n - 1) + lead_at(p, n - 1) + component_text(p.parts[n - 1])
    }
}

/// The text shown for a path (`Path::display`): every component with the
/// text before it, then the text after the last one.
pub open spec fn render_spec(p: PathView) -> Seq<char> {
    text_upto(p, p.parts.len() as int) + p.tail
}

/// Whether the path is a bare drive such as `C:`, to which a name is
/// adjoined without a separator.
pub open spec fn is_bare_drive(p: PathView) -> bool {
    &&& p.parts.len() == 1
    &&& p.parts[0] is Prefix
    &&& p.parts[0]->Prefix_0.len() == 2
    &&& p.parts[0]->Prefix_0[1] == ':'
    &&& lead_at(p, 0).len() == 0
    &&& p.tail.len() == 0
}

/// Whether adjoining a name writes a separator first: the path's text is not
/// empty, does not end in a separator, and is not a bare drive.
pub open spec fn needs_separator(p: PathView) -> bool {
    let t = render_spec(p);
    t.len() > 0 && !is_separator(t.last(), p.separator) && !is_bare_drive(p)
}

/// The texts before the first `n` components.
pub open spec fn leads_upto(p: PathView, n: int) -> Seq<Seq<char>> {
    Seq::new(n as nat, |i: int| lead_at(p, i))
}

/// The path with `name` adjoined as a last component (`Path::join` with a
/// single relative name): its text is the path's text, a separator when one
/// is needed, and the name.
pub open spec fn join_spec(p: PathView, name: Seq<char>) -> PathView {
    PathView {
        parts: p.parts.push(ComponentView::Normal(name)),
        leads: leads_upto(p, p.parts.len() as int).push(
            p.tail + if needs_separator(p) {
                seq![p.separator]
            } else {
                Seq::<char>::empty()
            },
        ),
        tail: Seq::empty(),
        separator: p.separator,
    }
}

/// The first `n` components, with the text written up to the end of the
/// last of them.
pub open spec fn front_spec(p: PathView, n: int) -> PathView {
    PathView {
        parts: p.parts.take(n),
        leads: leads_upto(p, n),
        tail: Seq::empty(),
        separator: p.separator,
    }
}

/// The parent of a path (`Path::parent`): the path without its last
/// component, and without the text that follows the component before it,
/// when that last component is a name, `.` or `..`; none when the path is
/// empty or ends in a root or a prefix.
pub open spec fn parent_spec(p: PathView) -> Option<PathView> {
    if p.parts.len() == 0 {
        None
    } else {
        match p.parts.last() {
            ComponentView::Normal(_) | ComponentView::CurDir | ComponentView::ParentDir => Some(
                front_spec(p, p.parts.len() - 1),
            ),
            _ => None,
        }
    }
}

/// The path `.`.
pub open spec fn cur_dir_spec(separator: char) -> PathView {
    PathView {
        parts: seq![ComponentView::CurDir],
        leads: seq![Seq::<char>::empty()],
        tail: Seq::empty(),
        separator,
    }
}

/// The final component of a path when it is a plain name.
pub open spec fn file_name_spec(p: PathView) -> Option<Seq<char>> {
    if p.parts.len() == 0 {
        None
    } else {
        match p.parts.last() {
            ComponentView::Normal(n) => Some(n),
            _ => None,
        }
    }
}

/// Index of the last occurrence of `c` in `s`, or -1 when there is none.
pub open spec fn last_index_of(s: Seq<char>, c: char) -> int
    decreases s.len(),
{
    if s.len() == 0 {
        -1
    } else if s.last() == c {
        s.len() - 1
    } else {
        last_index_of(s.drop_last(), c)
    }
}

/// The extension of a file name: what follows its last `.`, when that dot is
/// not the first character (and the name is not `..`).
pub open spec fn name_extension(name: Seq<char>) -> Option<Seq<char>> {
    let i = last_index_of(name, '.');
    if name == seq!['.', '.'] || i <= 0 {
        None
    } else {
        Some(name.subrange(i + 1, name.len() as int))
    }
}

/// The stem of a file name: what precedes its last `.`, or the whole name
/// when it has no such dot, or its only dot is the first character.
pub open spec fn name_stem(name: Seq<char>) -> Seq<char> {
    let i = last_index_of(name, '.');
    if name == seq!['.', '.'] || i <= 0 {
        name
    } else {
        name.subrange(0, i)
    }
}

/// The extension of the file name of a path.
pub open spec fn extension_spec(p: PathView) -> Option<Seq<char>> {
    match file_name_spec(p) {
        Some(n) => name_extension(n),
        None => None,
    }
}

/// The stem of the file name of a path.
pub open spec fn file_stem_spec(p: PathView) -> Option<Seq<char>> {
    match file_name_spec(p) {
        Some(n) => Some(name_stem(n)),
        None => None,
    }
}

/// The position of the last `.` in `name`, as `last_index_of` gives it.
fn last_dot(name: &str) -> (res: Option<usize>)
    ensures
        match res {
            Some(i) => last_index_of(name@, '.') == i as int && i < name@.len(),
            None => last_index_of(name@, '.') == -1,
        },
{
    let n = name.unicode_len();
    let mut j = n;
    assert(name@.take(n as int) =~= name@);
    while j > 0
        invariant
            j <= n,
            n == name@.len(),
            last_index_of(name@, '.') == last_index_of(name@.take(j as int), '.'),
        decreases j,
    {
        assert(name@.take(j as int).drop_last() =~= name@.take(j - 1));
        if name.get_char(j - 1) == '.' {
            return Some(j - 1);
        }
        j = j - 1;
    }
    None
}

/// Whether `name` is `..`.
fn is_dot_dot(name: &str) -> (res: bool)
    ensures
        res == (name@ == seq!['.', '.']),
{
    if name.unicode_len() == 2 && name.get_char(0) == '.' && name.get_char(1) == '.' {
        assert(name@ =~= seq!['.', '.']);
        true
    } else {
        false
    }
}

/// The extension of a file name (see `name_extension`).
pub fn extension_of(name: &str) -> (res: Option<String>)
    ensures
        match res {
            Some(r) => name_extension(name@) == Some(r@),
            None => name_extension(name@) is None,
        },
{
    if is_dot_dot(name) {
        return None;
    }
    match last_dot(name) {
        Some(i) => {
            if i == 0 {
                None
            } else {
                let n = name.unicode_len();
                Some(name.substring_char(i + 1, n).to_owned())
            }
        },
        None => None,
    }
}

/// The stem of a file name (see `name_stem`).
pub fn stem_of(name: &str) -> (res: String)
    ensures
        res@ == name_stem(name@),
{
    if is_dot_dot(name) {
        return name.to_owned();
    }
    match last_dot(name) {
        Some(i) => {
            if i == 0 {
                name.to_owned()
            } else {
                name.substring_char(0, i).to_owned()
            }
        },
        None => name.to_owned(),
    }
}

fn component_text_of(c: &PathComponent) -> (res: String)
    ensures
        res@ == component_text(c@),
{
    match c {
        PathComponent::Prefix(t) => t.clone(),
        PathComponent::RootDir => String::new(),
        PathComponent::CurDir => {
            let mut t = String::new();
            push_char(&mut t, '.');
            t
        },
        PathComponent::ParentDir => {
            let mut t = String::new();
            push_char(&mut t, '.');
            push_char(&mut t, '.');
            t
        },
        PathComponent::Normal(n) => n.clone(),
    }
}

/// Two paths whose first `n` components and texts before them agree have the
/// same text up to the `n`-th component.
pub proof fn lemma_text_upto_agree(p: PathView, q: PathView, n: int)
    requires
        0 <= n,
        n <= p.parts.len(),
        n <= q.parts.len(),
        forall|i: int| 0 <= i < n ==> #[trigger] p.parts[i] == q.parts[i],
        forall|i: int| 0 <= i < n ==> #[trigger] lead_at(p, i) == lead_at(q, i),
    ensures
        text_upto(p, n) == text_upto(q, n),
    decreases n,
{
    if n > 0 {
        lemma_text_upto_agree(p, q, n - 1);
    }
}

impl ProgramPath {
    /// The empty path, adjoining names with `separator`.
    pub fn empty(separator: char) -> (res: ProgramPath)
        ensures
            res@ == (PathView {
                parts: Seq::empty(),
                leads: Seq::empty(),
                tail: Seq::empty(),
                separator,
            }),
    {
        let res = ProgramPath {
            components: Vec::new(),
            leads: Vec::new(),
            tail: String::new(),
            separator,
        };
        assert(res@.parts =~= Seq::<ComponentView>::empty());
        assert(res@.leads =~= Seq::<Seq<char>>::empty());
        res
    }

    /// The path `.`.
    pub fn current_dir(separator: char) -> (res: ProgramPath)
        ensures
            res@ == cur_dir_spec(separator),
    {
        let mut v: Vec<PathComponent> = Vec::new();
        v.push(PathComponent::CurDir);
        let mut leads: Vec<String> = Vec::new();
        leads.push(String::new());
        let res = ProgramPath { components: v, leads, tail: String::new(), separator };
        assert(res@.parts =~= cur_dir_spec(separator).parts);
        assert(res@.leads =~= cur_dir_spec(separator).leads);
        res
    }

    /// The text written before the `i`-th component.
    pub fn lead(&self, i: usize) -> (res: String)
        ensures
            res@ == lead_at(self@, i as int),
    {
        if i < self.leads.len() {
            self.leads[i].clone()
        } else {
            String::new()
        }
    }

    /// A copy of this path.
    pub fn duplicate(&self) -> (res: ProgramPath)
        ensures
            res@ == self@,
    {
        let mut v: Vec<PathComponent> = Vec::new();
        let n = self.components.len();
        for i in 0..n
            invariant
                n == self.components@.len(),
                v@.len() == i,
                forall|j: int| 0 <= j < i ==> #[trigger] v@[j]@ == self.components@[j]@,
        {
            v.push(self.components[i].duplicate());
        }
        let mut leads: Vec<String> = Vec::new();
        let m = self.leads.len();
        for i in 0..m
            invariant
                m == self.leads@.len(),
                leads@.len() == i,
                forall|j: int| 0 <= j < i ==> #[trigger] leads@[j]@ == self.leads@[j]@,
        {
            leads.push(self.leads[i].clone());
        }
        let res = ProgramPath { components: v, leads, tail: self.tail.clone(), separator: self.separator };
        assert(res@.parts =~= self@.parts);
        assert(res@.leads =~= self@.leads);
        res
    }

    /// The first `n` components, with the text up to the end of the last.
    fn front(&self, n: usize) -> (res: ProgramPath)
        requires
            n <= self@.parts.len(),
        ensures
            res@ == front_spec(self@, n as int),
    {
        let mut v: Vec<PathComponent> = Vec::new();
        let mut leads: Vec<String> = Vec::new();
        for i in 0..n
            invariant
                n <= self.components@.len(),
                v@.len() == i,
                leads@.len() == i,
                forall|j: int| 0 <= j < i ==> #[trigger] v@[j]@ == self.components@[j]@,
                forall|j: int| 0 <= j < i ==> #[trigger] leads@[j]@ == lead_at(self@, j),
        {
            v.push(self.components[i].duplicate());
            leads.push(self.lead(i));
        }
        let res = ProgramPath { components: v, leads, tail: String::new(), separator: self.separator };
        assert(res@.parts =~= front_spec(self@, n as int).parts);
        assert(res@.leads =~= front_spec(self@, n as int).leads);
        res
    }

    /// The text shown for this path (`Path::display`).
    pub fn render(&self) -> (res: String)
        ensures
            res@ == render_spec(self@),
    {
        let mut res = String::new();
        let n = self.components.len();
        for i in 0..n
            invariant
                n == self@.parts.len(),
                res@ == text_upto(self@, i as int),
        {
            let lead = self.lead(i);
            res.append(lead.as_str());
            let text = component_text_of(&self.components[i]);
            res.append(text.as_str());
        }
        res.append(self.tail.as_str());
        res
    }

    fn bare_drive(&self) -> (res: bool)
        ensures
            res == is_bare_drive(self@),
    {
        if self.components.len() != 1 {
            return false;
        }
        match &self.components[0] {
            PathComponent::Prefix(t) => {
                let lead = self.lead(0);
                t.as_str().unicode_len() == 2 && t.as_str().get_char(1) == ':'
                    && lead.as_str().unicode_len() == 0 && self.tail.as_str().unicode_len() == 0
            },
            _ => false,
        }
    }

    fn needs_separator(&self) -> (res: bool)
        ensures
            res == needs_separator(self@),
    {
        let text = self.render();
        let n = text.as_str().unicode_len();
        if n == 0 {
            return false;
        }
        let last = text.as_str().get_char(n - 1);
        !(last == '/' || last == self.separator) && !self.bare_drive()
    }

    /// This path with the name `name` adjoined (`Path::join` with a single
    /// relative name).
    pub fn join(&self, name: &str) -> (res: ProgramPath)
        ensures
            res@ == join_spec(self@, name@),
    {
        let sep_needed = self.needs_separator();
        let n = self.components.len();
        let mut res = self.front(n);
        let mut lead = self.tail.clone();
        if sep_needed {
            push_char(&mut lead, self.separator);
        }
        res.components.push(PathComponent::Normal(name.to_owned()));
        let ghost lead_view = lead@;
        assert(lead_view =~= self@.tail + if needs_separator(self@) {
            seq![self@.separator]
        } else {
            Seq::<char>::empty()
        });
        res.leads.push(lead);
        assert(self@.parts.take(n as int) =~= self@.parts);
        assert(res@.parts =~= join_spec(self@, name@).parts);
        assert(res@.leads =~= join_spec(self@, name@).leads);
        res
    }

    /// The parent directory of this path (`Path::parent`).
    pub fn parent(&self) -> (res: Option<ProgramPath>)
        ensures
            opt_path(res) == parent_spec(self@),
    {
        let n = self.components.len();
        if n == 0 {
            return None;
        }
        match &self.components[n - 1] {
            PathComponent::Normal(_) | PathComponent::CurDir | PathComponent::ParentDir => {
                Some(self.front(n - 1))
            },
            _ => None,
        }
    }

    /// The final component when it is a plain name (`Path::file_name`).
    pub fn file_name(&self) -> (res: Option<String>)
        ensures
            match res {
                Some(r) => file_name_spec(self@) == Some(r@),
                None => file_name_spec(self@) is None,
            },
    {
        let n = self.components.len();
        if n == 0 {
            return None;
        }
        match &self.components[n - 1] {
            PathComponent::Normal(name) => Some(name.clone()),
            _ => None,
        }
    }

    /// The extension of the file name (`Path::extension`).
    pub fn extension(&self) -> (res: Option<String>)
        ensures
            match res {
                Some(r) => extension_spec(self@) == Some(r@),
                None => extension_spec(self@) is None,
            },
    {
        match self.file_name() {
            Some(n) => extension_of(n.as_str()),
            None => None,
        }
    }

    /// The stem of the file name (`Path::file_stem`).
    pub fn file_stem(&self) -> (res: Option<String>)
        ensures
            match res {
                Some(r) => file_stem_spec(self@) == Some(r@),
                None => file_stem_spec(self@) is None,
            },
    {
        match self.file_name() {
            Some(n) => Some(stem_of(n.as_str())),
            None => None,
        }
    }
}

/// Adjoining a name and then taking the parent gives back the original path's
/// components, and its text without what followed its last component.
pub proof fn parent_of_join(p: PathView, name: Seq<char>)
    ensures
        parent_spec(join_spec(p, name)) == Some(front_spec(p, p.parts.len() as int)),
{
    let j = join_spec(p, name);
    let n = p.parts.len() as int;
    assert(j.parts.take(n) =~= p.parts.take(n));
    assert(leads_upto(j, n) =~= leads_upto(p, n));
}

/// The file name of a path with a name adjoined is that name.
pub proof fn file_name_of_join(p: PathView, name: Seq<char>)
    ensures
        file_name_spec(join_spec(p, name)) == Some(name),
{
}

/// Where a file name has an extension, its stem, a dot and the extension
/// spell the name again.
pub proof fn stem_dot_extension(name: Seq<char>)
    requires
        name_extension(name) is Some,
    ensures
        name_stem(name) + seq!['.'] + name_extension(name)->0 == name,
{
    lemma_last_index_of(name, '.');
    assert(name_stem(name) + seq!['.'] + name_extension(name)->0 =~= name);
}

/// `last_index_of` points at an occurrence of the character, or is -1.
pub proof fn lemma_last_index_of(s: Seq<char>, c: char)
    ensures
        -1 <= last_index_of(s, c) < s.len(),
        last_index_of(s, c) >= 0 ==> s[last_index_of(s, c)] == c,
        forall|j: int| last_index_of(s, c) < j < s.len() ==> s[j] != c,
    decreases s.len(),
{
    if s.len() > 0 && s.last() != c {
        lemma_last_index_of(s.drop_last(), c);
        assert forall|j: int| last_index_of(s, c) < j < s.len() implies s[j] != c by {
            if j < s.len() - 1 {
                assert(s[j] == s.drop_last()[j]);
            }
        }
    }
}

/// The text shown for a path with a name adjoined is the path's own text, a
/// separator when one is needed, and the name.
pub proof fn render_of_join(p: PathView, name: Seq<char>)
    ensures
        render_spec(join_spec(p, name)) == render_spec(p) + (if needs_separator(p) {
            seq![p.separator]
        } else {
            Seq::<char>::empty()
        }) + name,
{
    let j = join_spec(p, name);
    let n = p.parts.len() as int;
    lemma_text_upto_agree(j, p, n);
    assert(render_spec(j) =~= render_spec(p) + (if needs_separator(p) {
        seq![p.separator]
    } else {
        Seq::<char>::empty()
    }) + name);
}

/// The text shown for a parent is the start of the text shown for the path:
/// what follows is the last component with the text around it.
pub proof fn parent_text_is_prefix(p: PathView)
    requires
        parent_spec(p) is Some,
    ensures
        render_spec(p) == render_spec(parent_spec(p)->0) + lead_at(p, p.parts.len() - 1)
            + component_text(p.parts.last()) + p.tail,
{
    let n = p.parts.len() as int;
    let q = parent_spec(p)->0;
    lemma_text_upto_agree(q, p, n - 1);
    assert(render_spec(q) =~= text_upto(p, n - 1));
}

/// How many characters a component takes where it is written: a root is
/// written as one separator, any other component as its own text.
pub open spec fn written_len(c: ComponentView) -> int {
    match c {
        ComponentView::RootDir => 1,
        _ => component_text(c).len() as int,
    }
}

/// Whether `c` is written at position `k` of `text`: a root as a separator,
/// any other component as its own text.
pub open spec fn written_at(text: Seq<char>, k: int, c: ComponentView, sep: char) -> bool {
    &&& 0 <= k
    &&& k + written_len(c) <= text.len()
    &&& match c {
        ComponentView::RootDir => is_separator(text[k], sep),
        _ => text.subrange(k, k + written_len(c)) == component_text(c),
    }
}

/// Whether the components from the `i`-th on are written in `text`, in
/// order, the first of them at or after position `from` and each one after
/// the end of the one before.
pub open spec fn placeable_from(
    text: Seq<char>,
    parts: Seq<ComponentView>,
    sep: char,
    i: int,
    from: int,
) -> bool
    decreases parts.len() - i,
{
    if i < 0 || i >= parts.len() {
        true
    } else {
        exists|k: int|
            from <= k && #[trigger] written_at(text, k, parts[i], sep) && placeable_from(
                text,
                parts,
                sep,
                i + 1,
                k + written_len(parts[i]),
            )
    }
}

/// Whether `text` writes the components `parts`, in order.
pub open spec fn placeable(text: Seq<char>, parts: Seq<ComponentView>, sep: char) -> bool {
    placeable_from(text, parts, sep, 0, 0)
}

/// Components that can be written from a position on can be written from
/// any earlier one.
proof fn lemma_placeable_earlier(
    text: Seq<char>,
    parts: Seq<ComponentView>,
    sep: char,
    i: int,
    a: int,
    b: int,
)
    requires
        b <= a,
        placeable_from(text, parts, sep, i, a),
    ensures
        placeable_from(text, parts, sep, i, b),
{
    if 0 <= i < parts.len() {
        let k = choose|k: int|
            a <= k && #[trigger] written_at(text, k, parts[i], sep) && placeable_from(
                text,
                parts,
                sep,
                i + 1,
                k + written_len(parts[i]),
            );
        assert(b <= k && written_at(text, k, parts[i], sep));
    }
}

/// Whether `pat` is written at position `k` of `text`.
fn text_has_at(text: &str, n: usize, k: usize, pat: &str) -> (res: bool)
    requires
        n == text@.len(),
        k <= n,
    ensures
        res == (k + pat@.len() <= n && text@.subrange(k as int, k + pat@.len()) == pat@),
{
    let m = pat.unicode_len();
    if m > n - k {
        return false;
    }
    let mut j: usize = 0;
    while j < m
        invariant
            n == text@.len(),
            m == pat@.len(),
            k + m <= n,
            j <= m,
            forall|q: int| 0 <= q < j ==> text@[k + q] == pat@[q],
        decreases m - j,
    {
        if text.get_char(k + j) != pat.get_char(j) {
            assert(text@.subrange(k as int, k + m)[j as int] != pat@[j as int]);
            return false;
        }
        j = j + 1;
    }
    assert(text@.subrange(k as int, k + m) =~= pat@);
    true
}

/// The first position, at or after `from`, where `c` is written in `text`.
fn find_written(text: &str, n: usize, from: usize, c: &PathComponent, sep: char) -> (res: Option<
    usize,
>)
    requires
        n == text@.len(),
        from <= n,
    ensures
        match res {
            Some(k) => from <= k && written_at(text@, k as int, c@, sep) && forall|j: int|
                from <= j < k ==> !#[trigger] written_at(text@, j, c@, sep),
            None => forall|j: int| from <= j ==> !#[trigger] written_at(text@, j, c@, sep),
        },
{
    let own = component_text_of(c);
    let is_root = match c {
        PathComponent::RootDir => true,
        _ => false,
    };
    let mut k = from;
    loop
        invariant
            n == text@.len(),
            from <= k <= n,
            own@ == component_text(c@),
            is_root == (c@ is RootDir),
            forall|j: int| from <= j < k ==> !#[trigger] written_at(text@, j, c@, sep),
        decreases n - k,
    {
        let here = if is_root {
            if k < n {
                let ch = text.get_char(k);
                ch == '/' || ch == sep
            } else {
                false
            }
        } else {
            text_has_at(text, n, k, own.as_str())
        };
        if here {
            return Some(k);
        }
        if k == n {
            return None;
        }
        k = k + 1;
    }
}

impl ProgramPath {
    /// The path with these components written as `text` (the components
    /// that `Path::components` yields for it): each component is taken at
    /// the first place it is written after the one before, a root at a
    /// separator, which becomes its lead, and the text between them is kept.
    /// None when `text` does not write the components in this order.
    pub fn from_text(text: &str, components: Vec<PathComponent>, separator: char) -> (res: Option<
        ProgramPath,
    >)
        ensures
            res is Some <==> placeable(
                text@,
                components@.map_values(|c: PathComponent| c@),
                separator,
            ),
            res matches Some(p) ==> {
                &&& p@.parts == components@.map_values(|c: PathComponent| c@)
                &&& p@.leads.len() == p@.parts.len()
                &&& p@.separator == separator
                &&& render_spec(p@) == text@
            },
    {
        let ghost parts = components@.map_values(|c: PathComponent| c@);
        let n = text.unicode_len();
        let m = components.len();
        let mut leads: Vec<String> = Vec::new();
        let mut pos: usize = 0;
        let mut i: usize = 0;
        while i < m
            invariant
                n == text@.len(),
                m == components@.len(),
                parts == components@.map_values(|c: PathComponent| c@),
                i <= m,
                pos <= n,
                leads@.len() == i,
                placeable(text@, parts, separator) <==> placeable_from(
                    text@,
                    parts,
                    separator,
                    i as int,
                    pos as int,
                ),
                text_upto(
                    PathView {
                        parts: parts.take(i as int),
                        leads: leads@.map_values(|s: String| s@),
                        tail: Seq::empty(),
                        separator,
                    },
                    i as int,
                ) == text@.take(pos as int),
            decreases m - i,
        {
            let c = &components[i];
            let ghost ci = parts[i as int];
            assert(ci == c@);
            match find_written(text, n, pos, c, separator) {
                None => {
                    assert(!placeable_from(text@, parts, separator, i as int, pos as int));
                    return None;
                },
                Some(k) => {
                    let ghost before = PathView {
                        parts: parts.take(i as int),
                        leads: leads@.map_values(|s: String| s@),
                        tail: Seq::empty(),
                        separator,
                    };
                    let ghost end = k + written_len(ci);
                    proof {
                        if placeable_from(text@, parts, separator, i as int, pos as int) {
                            let w = choose|w: int|
                                pos <= w && #[trigger] written_at(text@, w, ci, separator)
                                    && placeable_from(
                                    text@,
                                    parts,
                                    separator,
                                    i + 1,
                                    w + written_len(ci),
                                );
                            lemma_placeable_earlier(
                                text@,
                                parts,
                                separator,
                                i + 1,
                                w + written_len(ci),
                                end,
                            );
                        }
                        if placeable_from(text@, parts, separator, i + 1, end) {
                            assert(pos <= k && written_at(text@, k as int, ci, separator));
                        }
                    }
                    let (lead_end, next) = match c {
                        PathComponent::RootDir => (k + 1, k + 1),
                        _ => (k, k + component_text_of(c).unicode_len()),
                    };
                    assert(next == end);
                    let lead = text.substring_char(pos, lead_end).to_owned();
                    leads.push(lead);
                    proof {
                        let after = PathView {
                            parts: parts.take(i + 1),
                            leads: leads@.map_values(|s: String| s@),
                            tail: Seq::empty(),
                            separator,
                        };
                        lemma_text_upto_agree(after, before, i as int);
                        assert(lead_at(after, i as int) == text@.subrange(
                            pos as int,
                            lead_end as int,
                        ));
                        assert(after.parts[i as int] == ci);
                        assert(text_upto(after, i + 1) =~= text@.take(next as int));
                    }
                    pos = next;
                },
            }
            i = i + 1;
        }
        let tail = text.substring_char(pos, n).to_owned();
        let res = ProgramPath { components, leads, tail, separator };
        proof {
            let last = PathView {
                parts: parts.take(m as int),
                leads: res.leads@.map_values(|s: String| s@),
                tail: Seq::empty(),
                separator,
            };
            assert(parts.take(m as int) =~= parts);
            lemma_text_upto_agree(res@, last, m as int);
            assert(render_spec(res@) =~= text@);
            assert(placeable_from(text@, parts, separator, m as int, pos as int));
        }
        Some(res)
    }
}

/// Whether `child` is `parent` with one more name.
pub open spec fn is_subfolder(child: PathView, parent: PathView) -> bool {
    &&& child.parts.len() == parent.parts.len() + 1
    &&& child.parts.take(parent.parts.len() as int) == parent.parts
    &&& child.parts.last() is Normal
}

impl PathComponent {
    /// Whether the two components are the same.
    pub fn same_as(&self, other: &PathComponent) -> (res: bool)
        ensures
            res == (self@ == other@),
    {
        match (self, other) {
            (PathComponent::Prefix(a), PathComponent::Prefix(b)) => *a == *b,
            (PathComponent::RootDir, PathComponent::RootDir) => true,
            (PathComponent::CurDir, PathComponent::CurDir) => true,
            (PathComponent::ParentDir, PathComponent::ParentDir) => true,
            (PathComponent::Normal(a), PathComponent::Normal(b)) => *a == *b,
            _ => false,
        }
    }
}

/// Whether the first `n` components of `a` and `b` are the same.
fn same_components_upto(a: &Vec<PathComponent>, b: &Vec<PathComponent>, n: usize) -> (res: bool)
    requires
        n <= a@.len(),
        n <= b@.len(),
    ensures
        res == (a@.map_values(|c: PathComponent| c@).take(n as int) == b@.map_values(
            |c: PathComponent| c@,
        ).take(n as int)),
{
    let ghost pa = a@.map_values(|c: PathComponent| c@);
    let ghost pb = b@.map_values(|c: PathComponent| c@);
    let mut j: usize = 0;
    while j < n
        invariant
            n <= a@.len(),
            n <= b@.len(),
            j <= n,
            pa == a@.map_values(|c: PathComponent| c@),
            pb == b@.map_values(|c: PathComponent| c@),
            pa.take(j as int) == pb.take(j as int),
        decreases n - j,
    {
        if !a[j].same_as(&b[j]) {
            assert(pa.take(n as int)[j as int] != pb.take(n as int)[j as int]);
            return false;
        }
        assert(pa.take(j + 1) =~= pa.take(j as int).push(pa[j as int]));
        assert(pb.take(j + 1) =~= pb.take(j as int).push(pb[j as int]));
        j = j + 1;
    }
    true
}

impl ProgramPath {
    /// Whether `self` is `parent` with one more name.
    pub fn is_subfolder_of(&self, parent: &ProgramPath) -> (res: bool)
        ensures
            res == is_subfolder(self@, parent@),
    {
        let n = parent.components.len();
        if self.components.len() == 0 || self.components.len() - 1 != n {
            return false;
        }
        let last_is_name = match &self.components[n] {
            PathComponent::Normal(_) => true,
            _ => false,
        };
        let same = same_components_upto(&self.components, &parent.components, n);
        assert(parent@.parts.take(n as int) =~= parent@.parts);
        last_is_name && same
    }

    /// Whether the two paths are the same, components and text.
    pub fn same_as(&self, other: &ProgramPath) -> (res: bool)
        ensures
            res == (self@ == other@),
    {
        let n = self.components.len();
        if n != other.components.len() || self.leads.len() != other.leads.len() {
            assert(self@.parts.len() != other@.parts.len() || self@.leads.len()
                != other@.leads.len());
            return false;
        }
        if self.separator != other.separator || !(self.tail == other.tail) {
            return false;
        }
        if !same_components_upto(&self.components, &other.components, n) {
            return false;
        }
        assert(self@.parts.take(n as int) =~= self@.parts);
        assert(other@.parts.take(n as int) =~= other@.parts);
        let m = self.leads.len();
        let mut j: usize = 0;
        while j < m
            invariant
                m == self.leads@.len(),
                m == other.leads@.len(),
                j <= m,
                forall|q: int| 0 <= q < j ==> self.leads@[q]@ == other.leads@[q]@,
            decreases m - j,
        {
            if !(self.leads[j] == other.leads[j]) {
                assert(self@.leads[j as int] != other@.leads[j as int]);
                return false;
            }
            j = j + 1;
        }
        assert(self@.leads =~= other@.leads);
        true
    }
}

} // verus!
