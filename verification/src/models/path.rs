//! A model of file system paths as sequences of components.
//!
//! A path is split the way the standard library documents `Path::components`
//! on Unix: a leading `/` gives a root component, repeated separators are
//! ignored, `.` segments are dropped except at the very start of a relative
//! path, and `..` segments are parent components.
use vstd::prelude::*;
use vstd::string::*;

verus! {

/// One component of a path.
#[derive(Clone, Debug)]
pub enum PathComponent {
    RootDir,
    CurDir,
    ParentDir,
    Normal(String),
}

/// The mathematical value of a path component.
pub enum ComponentView {
    RootDir,
    CurDir,
    ParentDir,
    Normal(Seq<char>),
}

impl View for PathComponent {
    type V = ComponentView;

    open spec fn view(&self) -> ComponentView {
        match self {
            PathComponent::RootDir => ComponentView::RootDir,
            PathComponent::CurDir => ComponentView::CurDir,
            PathComponent::ParentDir => ComponentView::ParentDir,
            PathComponent::Normal(s) => ComponentView::Normal(s@),
        }
    }
}

/// The views of a sequence of components.
pub open spec fn components_view(v: Seq<PathComponent>) -> Seq<ComponentView> {
    v.map_values(|c: PathComponent| c@)
}

/// Appends the segment that a separator (or the end of the path) closes.
pub open spec fn close_segment(done: Seq<ComponentView>, seg: Seq<char>) -> Seq<ComponentView> {
    if seg.len() == 0 || seg == seq!['.'] {
        done
    } else if seg == seq!['.', '.'] {
        done.push(ComponentView::ParentDir)
    } else {
        done.push(ComponentView::Normal(seg))
    }
}

/// Reads the characters of a path left to right: the components closed so
/// far, and the segment still open.
pub open spec fn scan_segments(p: Seq<char>) -> (Seq<ComponentView>, Seq<char>)
    decreases p.len(),
{
    if p.len() == 0 {
        (Seq::empty(), Seq::empty())
    } else {
        let prev = scan_segments(p.drop_last());
        if p.last() == '/' {
            (close_segment(prev.0, prev.1), Seq::empty())
        } else {
            (prev.0, prev.1.push(p.last()))
        }
    }
}

/// A leading `/` is the root; a leading `.` segment of a relative path is
/// the current directory.
pub open spec fn leading_components(p: Seq<char>) -> Seq<ComponentView> {
    if p.len() > 0 && p[0] == '/' {
        seq![ComponentView::RootDir]
    } else if p.len() > 0 && p[0] == '.' && (p.len() == 1 || p[1] == '/') {
        seq![ComponentView::CurDir]
    } else {
        Seq::empty()
    }
}

/// The components of a path.
pub open spec fn path_components(p: Seq<char>) -> Seq<ComponentView> {
    leading_components(p) + close_segment(scan_segments(p).0, scan_segments(p).1)
}

fn close_segment_exec(done: &mut Vec<PathComponent>, seg: &str)
    ensures
        components_view(final(done)@) == close_segment(components_view(old(done)@), seg@),
{
    let n = seg.unicode_len();
    let ghost before = components_view(done@);
    if n == 0 {
        return;
    }
    if n == 1 && seg.get_char(0) == '.' {
        assert(seg@ =~= seq!['.']);
        return;
    }
    if n == 2 && seg.get_char(0) == '.' && seg.get_char(1) == '.' {
        assert(seg@ =~= seq!['.', '.']);
        done.push(PathComponent::ParentDir);
        assert(components_view(done@) =~= before.push(ComponentView::ParentDir));
        return;
    }
    assert(seg@ != seq!['.']) by {
        if seg@ == seq!['.'] {
            assert(seg@[0] == '.');
        }
    }
    assert(seg@ != seq!['.', '.']) by {
        if seg@ == seq!['.', '.'] {
            assert(seg@[0] == '.' && seg@[1] == '.');
        }
    }
    done.push(PathComponent::Normal(String::from_str(seg)));
    assert(components_view(done@) =~= before.push(ComponentView::Normal(seg@)));
}

/// Splits a path into its components.
pub fn components(path: &str) -> (res: Vec<PathComponent>)
    ensures
        components_view(res@) == path_components(path@),
{
    let n = path.unicode_len();
    let mut res: Vec<PathComponent> = Vec::new();
    if n > 0 && path.get_char(0) == '/' {
        res.push(PathComponent::RootDir);
    } else if n > 0 && path.get_char(0) == '.' && (n == 1 || path.get_char(1) == '/') {
        res.push(PathComponent::CurDir);
    }
    let ghost lead = components_view(res@);
    assert(lead =~= leading_components(path@));
    let mut done: Vec<PathComponent> = Vec::new();
    let mut start: usize = 0;
    let mut i: usize = 0;
    assert(path@.take(0) =~= Seq::<char>::empty());
    while i < n
        invariant
            n == path@.len(),
            start <= i <= n,
            components_view(done@) == scan_segments(path@.take(i as int)).0,
            path@.subrange(start as int, i as int) == scan_segments(path@.take(i as int)).1,
        decreases n - i,
    {
        let c = path.get_char(i);
        assert(path@.take(i + 1).drop_last() =~= path@.take(i as int));
        assert(path@.take(i + 1).last() == c);
        if c == '/' {
            let seg = path.substring_char(start, i);
            close_segment_exec(&mut done, seg);
            start = i + 1;
            assert(path@.subrange(start as int, i + 1) =~= Seq::<char>::empty());
        } else {
            assert(path@.subrange(start as int, i + 1) =~= path@.subrange(start as int, i as int).push(c));
        }
        i = i + 1;
    }
    assert(path@.take(n as int) =~= path@);
    let seg = path.substring_char(start, n);
    close_segment_exec(&mut done, seg);
    let ghost rest = components_view(done@);
    res.append(&mut done);
    assert(components_view(res@) =~= lead + rest);
    res
}

/// The last component of a path when it is a normal name.
pub open spec fn spec_file_name(p: Seq<char>) -> Option<Seq<char>> {
    let c = path_components(p);
    if c.len() > 0 && c.last() is Normal {
        Some(c.last()->Normal_0)
    } else {
        None
    }
}

/// The character view of an optional string.
pub open spec fn opt_string_view(s: Option<String>) -> Option<Seq<char>> {
    match s {
        Some(v) => Some(v@),
        None => None,
    }
}

/// The last component of a path when it is a normal name.
pub fn file_name(path: &str) -> (res: Option<String>)
    ensures
        opt_string_view(res) == spec_file_name(path@),
{
    let comps = components(path);
    let n = comps.len();
    if n == 0 {
        return None;
    }
    assert(components_view(comps@).last() == comps@[n - 1]@);
    match &comps[n - 1] {
        PathComponent::Normal(s) => Some(s.clone()),
        _ => None,
    }
}

/// The file name of a path, or the empty string where it has none.
pub open spec fn file_name_or_empty(p: Seq<char>) -> Seq<char> {
    match spec_file_name(p) {
        Some(n) => n,
        None => Seq::empty(),
    }
}

/// Whether some component of a path is a normal name from `names`: the
/// names that the path's ancestors (the path itself, its parent, and so on)
/// carry as file names.
pub open spec fn has_normal_component(p: Seq<char>, names: Seq<Seq<char>>) -> bool {
    exists|k: int|
        0 <= k < path_components(p).len() && (#[trigger] path_components(p)[k]) is Normal
            && names.contains(path_components(p)[k]->Normal_0)
}

/// `a` joined with `b` the way `PathBuf::push` documents it: an absolute `b`
/// replaces `a`; otherwise `b` is appended, after a separator where `a` is
/// not empty and does not already end with one.
pub open spec fn path_join(a: Seq<char>, b: Seq<char>) -> Seq<char> {
    if b.len() > 0 && b[0] == '/' {
        b
    } else if a.len() == 0 {
        b
    } else if a.last() == '/' {
        a + b
    } else {
        a + seq!['/'] + b
    }
}

/// Joins two paths.
pub fn join(a: &str, b: &str) -> (res: String)
    ensures
        res@ == path_join(a@, b@),
{
    let nb = b.unicode_len();
    let na = a.unicode_len();
    if nb > 0 && b.get_char(0) == '/' {
        return String::from_str(b);
    }
    if na == 0 {
        return String::from_str(b);
    }
    let s = String::from_str(a);
    if a.get_char(na - 1) == '/' {
        s.concat(b)
    } else {
        let s = s.concat("/");
        proof {
            reveal_strlit("/");
        }
        s.concat(b)
    }
}

/// The text of one component.
pub open spec fn component_text(c: ComponentView) -> Seq<char> {
    match c {
        ComponentView::RootDir => Seq::empty(),
        ComponentView::CurDir => seq!['.'],
        ComponentView::ParentDir => seq!['.', '.'],
        ComponentView::Normal(s) => s,
    }
}

/// Components written out with a separator between each two.
pub open spec fn render_components(cs: Seq<ComponentView>) -> Seq<char>
    decreases cs.len(),
{
    if cs.len() == 0 {
        Seq::empty()
    } else if cs.len() == 1 {
        component_text(cs[0])
    } else {
        render_components(cs.drop_last()) + seq!['/'] + component_text(cs.last())
    }
}

fn component_string(c: &PathComponent) -> (res: String)
    ensures
        res@ == component_text(c@),
{
    match c {
        PathComponent::RootDir => String::new(),
        PathComponent::CurDir => {
            proof {
                reveal_strlit(".");
            }
            String::from_str(".")
        },
        PathComponent::ParentDir => {
            proof {
                reveal_strlit("..");
            }
            String::from_str("..")
        },
        PathComponent::Normal(s) => s.clone(),
    }
}

/// Writes out `comps[from..]` with a separator between each two.
pub fn render_from(comps: &Vec<PathComponent>, from: usize) -> (res: String)
    requires
        from <= comps@.len(),
    ensures
        res@ == render_components(components_view(comps@).skip(from as int)),
{
    let ghost cv = components_view(comps@);
    let mut out = String::new();
    let mut i: usize = from;
    assert(cv.skip(from as int).take(0) =~= Seq::<ComponentView>::empty());
    while i < comps.len()
        invariant
            cv == components_view(comps@),
            from <= i <= comps@.len(),
            out@ == render_components(cv.skip(from as int).take(i - from)),
        decreases comps@.len() - i,
    {
        let ghost prev = cv.skip(from as int).take(i - from);
        let ghost next = cv.skip(from as int).take(i - from + 1);
        assert(next.drop_last() =~= prev);
        assert(next.last() == comps@[i as int]@);
        let text = component_string(&comps[i]);
        if i == from {
            assert(next.len() == 1);
            out = text;
        } else {
            proof {
                reveal_strlit("/");
            }
            out.append("/");
            out.append(text.as_str());
        }
        i = i + 1;
    }
    assert(cv.skip(from as int).take(comps@.len() - from) =~= cv.skip(from as int));
    out
}

/// Whether the first component of a path is the name `~`.
pub open spec fn starts_with_tilde(p: Seq<char>) -> bool {
    path_components(p).len() > 0 && path_components(p)[0] == ComponentView::Normal(seq!['~'])
}

/// Whether two components are the same.
pub fn component_eq(a: &PathComponent, b: &PathComponent) -> (res: bool)
    ensures
        res == (a@ == b@),
{
    match (a, b) {
        (PathComponent::RootDir, PathComponent::RootDir) => true,
        (PathComponent::CurDir, PathComponent::CurDir) => true,
        (PathComponent::ParentDir, PathComponent::ParentDir) => true,
        (PathComponent::Normal(x), PathComponent::Normal(y)) => crate::text::str_eq(
            x.as_str(),
            y.as_str(),
        ),
        _ => false,
    }
}

/// Whether two paths have the same components, which is how paths compare.
pub fn paths_equal(a: &str, b: &str) -> (res: bool)
    ensures
        res == (path_components(a@) == path_components(b@)),
{
    let ca = components(a);
    let cb = components(b);
    let ghost va = components_view(ca@);
    let ghost vb = components_view(cb@);
    if ca.len() != cb.len() {
        assert(va.len() != vb.len());
        return false;
    }
    let mut i: usize = 0;
    while i < ca.len()
        invariant
            va == components_view(ca@),
            vb == components_view(cb@),
            va == path_components(a@),
            vb == path_components(b@),
            ca@.len() == cb@.len(),
            i <= ca@.len(),
            forall|j: int| 0 <= j < i ==> va[j] == vb[j],
        decreases ca@.len() - i,
    {
        assert(va[i as int] == ca@[i as int]@);
        assert(vb[i as int] == cb@[i as int]@);
        if !component_eq(&ca[i], &cb[i]) {
            return false;
        }
        i = i + 1;
    }
    assert(va =~= vb);
    true
}

/// The path that remains of `path` once the components of `base` are
/// taken off its front, as `Path::strip_prefix` documents it; `None` where
/// `base` is not a prefix of `path`.
pub open spec fn spec_strip_prefix(path: Seq<char>, base: Seq<char>) -> Option<Seq<char>> {
    let c = path_components(path);
    let b = path_components(base);
    if b.is_prefix_of(c) {
        Some(render_components(c.skip(b.len() as int)))
    } else {
        None
    }
}

/// Takes the components of `base` off the front of `path`.
pub fn strip_prefix(path: &str, base: &str) -> (res: Option<String>)
    ensures
        opt_string_view(res) == spec_strip_prefix(path@, base@),
{
    let c = components(path);
    let b = components(base);
    let ghost cv = components_view(c@);
    let ghost bv = components_view(b@);
    if b.len() > c.len() {
        assert(bv.len() > cv.len());
        return None;
    }
    let mut i: usize = 0;
    while i < b.len()
        invariant
            cv == components_view(c@),
            bv == components_view(b@),
            cv == path_components(path@),
            bv == path_components(base@),
            b@.len() <= c@.len(),
            i <= b@.len(),
            forall|j: int| 0 <= j < i ==> bv[j] == cv[j],
        decreases b@.len() - i,
    {
        if !component_eq(&b[i], &c[i]) {
            assert(!bv.is_prefix_of(cv)) by {
                assert(bv[i as int] == b@[i as int]@);
                assert(cv[i as int] == c@[i as int]@);
                assert(bv[i as int] != cv[i as int]);
                assert(cv.subrange(0, bv.len() as int)[i as int] == cv[i as int]);
            }
            return None;
        }
        i = i + 1;
    }
    assert(bv =~= cv.subrange(0, bv.len() as int));
    Some(render_from(&c, b.len()))
}

/// Whether the first component of a path is the name `~`.
pub fn path_starts_with_tilde(path: &str) -> (res: bool)
    ensures
        res == starts_with_tilde(path@),
{
    let comps = components(path);
    if comps.len() == 0 {
        return false;
    }
    assert(components_view(comps@)[0] == comps@[0]@);
    match &comps[0] {
        PathComponent::Normal(first) => {
            if first.as_str().unicode_len() == 1 && first.as_str().get_char(0) == '~' {
                assert(first@ =~= seq!['~']);
                true
            } else {
                assert(first@ != seq!['~']) by {
                    if first@ == seq!['~'] {
                        assert(first@[0] == '~');
                    }
                }
                false
            }
        },
        _ => false,
    }
}

/// A path with a leading `~` component replaced by `home`; any other path is
/// returned as it is.
pub open spec fn spec_expand_tilde(p: Seq<char>, home: Seq<char>) -> Seq<char> {
    if starts_with_tilde(p) {
        path_join(home, render_components(path_components(p).skip(1)))
    } else {
        p
    }
}

/// Replaces a leading `~` component of `path` by `home`.
pub fn expand_tilde_with_home(path: &str, home: &str) -> (res: String)
    ensures
        res@ == spec_expand_tilde(path@, home@),
{
    let comps = components(path);
    let ghost cv = components_view(comps@);
    if comps.len() > 0 {
        assert(cv[0] == comps@[0]@);
        match &comps[0] {
            PathComponent::Normal(first) => {
                if first.as_str().unicode_len() == 1 && first.as_str().get_char(0) == '~' {
                    assert(first@ =~= seq!['~']);
                    let rest = render_from(&comps, 1);
                    return join(home, rest.as_str());
                } else {
                    assert(first@ != seq!['~']) by {
                        if first@ == seq!['~'] {
                            assert(first@[0] == '~');
                        }
                    }
                }
            },
            _ => {},
        }
    }
    String::from_str(path)
}

/// Expanding an expanded path changes nothing, whenever the home directory
/// is absolute.
pub proof fn lemma_expand_tilde_idempotent(p: Seq<char>, home: Seq<char>)
    requires
        home.len() > 0,
        home[0] == '/',
    ensures
        spec_expand_tilde(spec_expand_tilde(p, home), home) == spec_expand_tilde(p, home),
{
    let once = spec_expand_tilde(p, home);
    if starts_with_tilde(p) {
        let rest = render_components(path_components(p).skip(1));
        if rest.len() > 0 && rest[0] == '/' {
            assert(once == rest);
        } else if rest.len() == 0 {
        }
        assert(once.len() > 0 && once[0] == '/') by {
            if !(rest.len() > 0 && rest[0] == '/') {
                if home.last() == '/' {
                    assert((home + rest)[0] == home[0]);
                } else {
                    assert((home + seq!['/'] + rest)[0] == home[0]);
                }
            }
        }
        assert(leading_components(once) == seq![ComponentView::RootDir]);
        assert(path_components(once)[0] == ComponentView::RootDir);
    }
}

/// A component that a path of plain names gives: a non-empty name holding
/// neither `~` nor `/`, or `..`.
pub open spec fn plain_component(c: ComponentView) -> bool {
    match c {
        ComponentView::Normal(t) => t.len() > 0 && forall|j: int|
            0 <= j < t.len() ==> #[trigger] t[j] != '~' && t[j] != '/',
        ComponentView::ParentDir => true,
        _ => false,
    }
}

proof fn lemma_close_segment_append(a: Seq<ComponentView>, b: Seq<ComponentView>, seg: Seq<char>)
    ensures
        close_segment(a + b, seg) == a + close_segment(b, seg),
{
    if !(seg.len() == 0 || seg == seq!['.']) {
        if seg == seq!['.', '.'] {
            assert((a + b).push(ComponentView::ParentDir) =~= a + b.push(ComponentView::ParentDir));
        } else {
            assert((a + b).push(ComponentView::Normal(seg)) =~= a + b.push(
                ComponentView::Normal(seg),
            ));
        }
    }
}

/// After a separator, what follows is scanned as a path of its own.
proof fn lemma_scan_after_separator(x: Seq<char>, y: Seq<char>)
    requires
        x.len() > 0,
        x.last() == '/',
    ensures
        scan_segments(x + y) == (scan_segments(x).0 + scan_segments(y).0, scan_segments(y).1),
    decreases y.len(),
{
    if y.len() == 0 {
        assert(x + y =~= x);
        assert(scan_segments(x).0 + Seq::<ComponentView>::empty() =~= scan_segments(x).0);
    } else {
        let y0 = y.drop_last();
        lemma_scan_after_separator(x, y0);
        assert((x + y).drop_last() =~= x + y0);
        assert((x + y).last() == y.last());
        if y.last() == '/' {
            lemma_close_segment_append(scan_segments(x).0, scan_segments(y0).0, scan_segments(y0).1);
        } else {
            assert(scan_segments(x + y).0 =~= scan_segments(x).0 + scan_segments(y).0);
        }
    }
}

/// The components a path without `~` is scanned into are plain, and so is
/// the segment left open.
proof fn lemma_scan_plain(s: Seq<char>)
    requires
        forall|i: int| 0 <= i < s.len() ==> #[trigger] s[i] != '~',
    ensures
        forall|k: int|
            0 <= k < scan_segments(s).0.len() ==> plain_component(#[trigger] scan_segments(s).0[k]),
        forall|j: int| 0 <= j < scan_segments(s).1.len() ==> #[trigger] scan_segments(s).1[j] != '~'
            && scan_segments(s).1[j] != '/',
    decreases s.len(),
{
    if s.len() > 0 {
        let s0 = s.drop_last();
        assert forall|i: int| 0 <= i < s0.len() implies #[trigger] s0[i] != '~' by {
            assert(s0[i] == s[i]);
        }
        lemma_scan_plain(s0);
        let prev = scan_segments(s0);
        if s.last() == '/' {
            lemma_close_plain(prev.0, prev.1);
        } else {
            assert forall|j: int| 0 <= j < scan_segments(s).1.len() implies #[trigger] scan_segments(
                s,
            ).1[j] != '~' && scan_segments(s).1[j] != '/' by {
                if j < prev.1.len() {
                    assert(scan_segments(s).1[j] == prev.1[j]);
                } else {
                    assert(scan_segments(s).1[j] == s.last());
                    assert(s[s.len() - 1] != '~');
                }
            }
        }
    }
}

proof fn lemma_close_plain(done: Seq<ComponentView>, seg: Seq<char>)
    requires
        forall|k: int| 0 <= k < done.len() ==> plain_component(#[trigger] done[k]),
        forall|j: int| 0 <= j < seg.len() ==> #[trigger] seg[j] != '~' && seg[j] != '/',
    ensures
        forall|k: int|
            0 <= k < close_segment(done, seg).len() ==> plain_component(
                #[trigger] close_segment(done, seg)[k],
            ),
{
    let c = close_segment(done, seg);
    assert forall|k: int| 0 <= k < c.len() implies plain_component(#[trigger] c[k]) by {
        if k < done.len() {
            assert(c[k] == done[k]);
        } else {
            if !(seg == seq!['.', '.']) {
                assert(c[k] == ComponentView::Normal(seg));
                assert forall|j: int| 0 <= j < seg.len() implies #[trigger] seg[j] != '~' && seg[j]
                    != '/' by {}
            }
        }
    }
}

/// Plain components are written out without `~`, and not starting with `/`.
proof fn lemma_render_plain(cs: Seq<ComponentView>)
    requires
        forall|k: int| 0 <= k < cs.len() ==> plain_component(#[trigger] cs[k]),
    ensures
        forall|j: int| 0 <= j < render_components(cs).len() ==> #[trigger] render_components(cs)[j]
            != '~',
        cs.len() > 0 ==> render_components(cs).len() > 0 && render_components(cs)[0] != '/',
    decreases cs.len(),
{
    if cs.len() == 1 {
        assert(plain_component(cs[0]));
    } else if cs.len() > 1 {
        let init = cs.drop_last();
        assert forall|k: int| 0 <= k < init.len() implies plain_component(#[trigger] init[k]) by {
            assert(init[k] == cs[k]);
        }
        lemma_render_plain(init);
        let last = component_text(cs.last());
        assert(plain_component(cs[cs.len() - 1]));
        let r = render_components(cs);
        assert(r == render_components(init) + seq!['/'] + last);
        assert forall|j: int| 0 <= j < r.len() implies #[trigger] r[j] != '~' by {
            let n = render_components(init).len();
            if j < n {
                assert(r[j] == render_components(init)[j]);
            } else if j > n {
                assert(r[j] == last[j - n - 1]);
            }
        }
        assert(r[0] == render_components(init)[0]);
    }
}

/// A path `~/rest`, with no `~` in `rest`, expands to an absolute path
/// without any `~` when the home directory is absolute and holds no `~`.
pub proof fn lemma_expand_tilde_absolute(rest: Seq<char>, home: Seq<char>)
    requires
        home.len() > 0,
        home[0] == '/',
        forall|i: int| 0 <= i < home.len() ==> #[trigger] home[i] != '~',
        forall|i: int| 0 <= i < rest.len() ==> #[trigger] rest[i] != '~',
    ensures
        ({
            let e = spec_expand_tilde(seq!['~', '/'] + rest, home);
            &&& e.len() > 0
            &&& e[0] == '/'
            &&& forall|j: int| 0 <= j < e.len() ==> #[trigger] e[j] != '~'
        }),
{
    let x = seq!['~', '/'];
    let p = x + rest;
    assert(x.drop_last() =~= seq!['~']);
    assert(seq!['~'].drop_last() =~= Seq::<char>::empty());
    assert(scan_segments(Seq::<char>::empty()) == (
        Seq::<ComponentView>::empty(),
        Seq::<char>::empty(),
    ));
    assert(seq!['~'].last() == '~');
    assert(Seq::<char>::empty().push('~') =~= seq!['~']);
    assert(scan_segments(seq!['~']).1 =~= seq!['~']);
    assert(scan_segments(seq!['~']).0 =~= Seq::<ComponentView>::empty());
    assert(scan_segments(x).0 =~= seq![ComponentView::Normal(seq!['~'])]);
    assert(scan_segments(x).1 =~= Seq::<char>::empty());
    lemma_scan_after_separator(x, rest);
    lemma_scan_plain(rest);
    let head = seq![ComponentView::Normal(seq!['~'])];
    let tail = close_segment(scan_segments(rest).0, scan_segments(rest).1);
    lemma_close_segment_append(head, scan_segments(rest).0, scan_segments(rest).1);
    assert(p[0] == '~');
    assert(leading_components(p) =~= Seq::<ComponentView>::empty());
    assert(path_components(p) =~= head + tail);
    assert(starts_with_tilde(p));
    assert(path_components(p).skip(1) =~= tail);
    lemma_close_plain(scan_segments(rest).0, scan_segments(rest).1);
    lemma_render_plain(tail);
    let r = render_components(tail);
    let e = spec_expand_tilde(p, home);
    assert(e == path_join(home, r));
    if home.last() == '/' {
        assert(e == home + r);
        assert forall|j: int| 0 <= j < e.len() implies #[trigger] e[j] != '~' by {
            if j < home.len() {
                assert(e[j] == home[j]);
            } else {
                assert(e[j] == r[j - home.len()]);
            }
        }
    } else {
        assert(e == home + seq!['/'] + r);
        assert forall|j: int| 0 <= j < e.len() implies #[trigger] e[j] != '~' by {
            if j < home.len() {
                assert(e[j] == home[j]);
            } else if j > home.len() {
                assert(e[j] == r[j - home.len() - 1]);
            }
        }
    }
    assert(e[0] == home[0]);
}

/// A name that a path component can be written as: not empty, no `/` in
/// it, and neither `.` nor `..`.
pub open spec fn plain_name(n: Seq<char>) -> bool {
    n.len() > 0 && (forall|j: int| 0 <= j < n.len() ==> #[trigger] n[j] != '/') && n != seq!['.']
        && n != seq!['.', '.']
}

/// The relative path made of the names, one component each.
pub open spec fn names_path(names: Seq<Seq<char>>) -> Seq<char> {
    render_components(names.map_values(|n: Seq<char>| ComponentView::Normal(n)))
}

/// A text without separators stays one open segment.
proof fn lemma_scan_no_separator(y: Seq<char>)
    requires
        forall|j: int| 0 <= j < y.len() ==> #[trigger] y[j] != '/',
    ensures
        scan_segments(y) == (Seq::<ComponentView>::empty(), y),
    decreases y.len(),
{
    if y.len() > 0 {
        let y0 = y.drop_last();
        assert forall|j: int| 0 <= j < y0.len() implies #[trigger] y0[j] != '/' by {
            assert(y0[j] == y[j]);
        }
        lemma_scan_no_separator(y0);
        assert(y[y.len() - 1] != '/');
        assert(y0.push(y.last()) =~= y);
    }
}

/// Plain names written out are scanned back into all names but the last,
/// with the last one left open.
proof fn lemma_scan_names(cs: Seq<ComponentView>)
    requires
        cs.len() > 0,
        forall|k: int| 0 <= k < cs.len() ==> (#[trigger] cs[k] is Normal) && plain_name(cs[k]->Normal_0),
    ensures
        scan_segments(render_components(cs)) == (cs.drop_last(), cs.last()->Normal_0),
    decreases cs.len(),
{
    if cs.len() == 1 {
        assert(cs[0] is Normal && plain_name(cs[0]->Normal_0));
        lemma_scan_no_separator(cs[0]->Normal_0);
        assert(cs.drop_last() =~= Seq::<ComponentView>::empty());
    } else {
        let init = cs.drop_last();
        assert forall|k: int| 0 <= k < init.len() implies (#[trigger] init[k] is Normal) && plain_name(
            init[k]->Normal_0,
        ) by {
            assert(init[k] == cs[k]);
        }
        lemma_scan_names(init);
        let x = render_components(init) + seq!['/'];
        let y = cs.last()->Normal_0;
        assert(cs[cs.len() - 1] is Normal && plain_name(cs[cs.len() - 1]->Normal_0));
        assert(render_components(cs) == x + y);
        assert(x.drop_last() =~= render_components(init));
        let last_init = init.last()->Normal_0;
        assert(init[init.len() - 1] is Normal && plain_name(init[init.len() - 1]->Normal_0));
        assert(scan_segments(x).0 == close_segment(init.drop_last(), last_init));
        assert(close_segment(init.drop_last(), last_init) =~= init);
        lemma_scan_after_separator(x, y);
        lemma_scan_no_separator(y);
        assert(init + Seq::<ComponentView>::empty() =~= init);
    }
}

/// Plain names written out are read back as the same components.
pub proof fn lemma_names_path_components(names: Seq<Seq<char>>)
    requires
        names.len() > 0,
        forall|k: int| 0 <= k < names.len() ==> plain_name(#[trigger] names[k]),
    ensures
        path_components(names_path(names)) == names.map_values(|n: Seq<char>| ComponentView::Normal(n)),
{
    let cs = names.map_values(|n: Seq<char>| ComponentView::Normal(n));
    assert forall|k: int| 0 <= k < cs.len() implies (#[trigger] cs[k] is Normal) && plain_name(
        cs[k]->Normal_0,
    ) by {
        assert(cs[k] == ComponentView::Normal(names[k]));
    }
    lemma_scan_names(cs);
    let p = names_path(names);
    assert(cs[cs.len() - 1] is Normal && plain_name(cs[cs.len() - 1]->Normal_0));
    assert(close_segment(cs.drop_last(), cs.last()->Normal_0) =~= cs);
    lemma_render_first(cs);
    let n0 = names[0];
    assert(cs[0] == ComponentView::Normal(n0));
    assert(plain_name(n0));
    assert(p[0] == n0[0]);
    if n0.len() >= 2 {
        assert(p[1] == n0[1]);
    } else {
        assert(n0[0] != '.') by {
            if n0[0] == '.' {
                assert(n0 =~= seq!['.']);
            }
        }
    }
    assert(leading_components(p) =~= Seq::<ComponentView>::empty());
    assert(path_components(p) =~= cs);
}

/// Plain names written out start with the first name.
proof fn lemma_render_first(cs: Seq<ComponentView>)
    requires
        cs.len() > 0,
        forall|k: int| 0 <= k < cs.len() ==> (#[trigger] cs[k] is Normal) && plain_name(cs[k]->Normal_0),
    ensures
        render_components(cs).len() >= cs[0]->Normal_0.len(),
        forall|j: int|
            0 <= j < cs[0]->Normal_0.len() ==> #[trigger] render_components(cs)[j] == cs[0]->Normal_0[j],
        render_components(cs).len() > cs[0]->Normal_0.len() ==> render_components(cs)[cs[0]->Normal_0.len() as int]
            == '/',
    decreases cs.len(),
{
    assert(cs[0] is Normal && plain_name(cs[0]->Normal_0));
    if cs.len() > 1 {
        let init = cs.drop_last();
        assert forall|k: int| 0 <= k < init.len() implies (#[trigger] init[k] is Normal) && plain_name(
            init[k]->Normal_0,
        ) by {
            assert(init[k] == cs[k]);
        }
        lemma_render_first(init);
        assert(init[0] == cs[0]);
        let r = render_components(cs);
        let ri = render_components(init);
        assert(r == ri + seq!['/'] + component_text(cs.last()));
        assert forall|j: int| 0 <= j < cs[0]->Normal_0.len() implies #[trigger] r[j] == cs[0]->Normal_0[j] by {
            assert(r[j] == ri[j]);
        }
        let n0 = cs[0]->Normal_0.len();
        if n0 < ri.len() {
            assert(r[n0 as int] == ri[n0 as int]);
        } else {
            assert(r[n0 as int] == '/');
        }
    }
}

/// After a separator, the components of what follows come after those of
/// what precedes it.
pub proof fn lemma_components_after_separator(source: Seq<char>, rel: Seq<char>)
    requires
        source.len() > 0,
        leading_components(rel) == Seq::<ComponentView>::empty(),
    ensures
        path_components(source + seq!['/'] + rel) == path_components(source) + path_components(rel),
{
    let x = source + seq!['/'];
    assert(x.drop_last() =~= source);
    lemma_scan_after_separator(x, rel);
    assert(source + seq!['/'] + rel =~= x + rel);
    let s = scan_segments(source);
    let r = scan_segments(rel);
    lemma_close_segment_append(close_segment(s.0, s.1), r.0, r.1);
    let p = x + rel;
    assert(p[0] == source[0]);
    if source.len() > 1 {
        assert(p[1] == source[1]);
    } else {
        assert(p[1] == '/');
    }
    assert(leading_components(p) == leading_components(source));
    assert(path_components(rel) =~= close_segment(r.0, r.1));
    assert(path_components(p) =~= path_components(source) + path_components(rel));
}

} // verus!
