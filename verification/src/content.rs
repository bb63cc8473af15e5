use vstd::prelude::*;
use crate::text::chars_of;
use crate::capture::{reselect, reselected};

verus! {

/// Whether `a` comes strictly before `b` in lexicographic order of code
/// points, a proper prefix coming first. This is the order of `<` on
/// `str`, whose UTF-8 byte order agrees with code point order.
pub open spec fn chars_less(a: Seq<char>, b: Seq<char>) -> bool
    decreases a.len(),
{
    if a.len() == 0 {
        b.len() > 0
    } else if b.len() == 0 {
        false
    } else if a[0] != b[0] {
        (a[0] as u32) < (b[0] as u32)
    } else {
        chars_less(a.drop_first(), b.drop_first())
    }
}

/// No name comes before itself.
pub proof fn lemma_chars_less_irreflexive(a: Seq<char>)
    ensures
        !chars_less(a, a),
    decreases a.len(),
{
    if a.len() > 0 {
        lemma_chars_less_irreflexive(a.drop_first());
    }
}

/// Of two different names, exactly one comes first.
pub proof fn lemma_chars_less_total(a: Seq<char>, b: Seq<char>)
    ensures
        a != b ==> chars_less(a, b) || chars_less(b, a),
        !(chars_less(a, b) && chars_less(b, a)),
    decreases a.len(),
{
    if a.len() > 0 && b.len() > 0 {
        lemma_chars_less_total(a.drop_first(), b.drop_first());
        if a[0] != b[0] {
            vstd::utf8::char_u32_cast(a[0], a[0] as u32);
            vstd::utf8::char_u32_cast(b[0], b[0] as u32);
        }
        if a[0] == b[0] && a.drop_first() == b.drop_first() {
            assert(a =~= seq![a[0]] + a.drop_first());
            assert(b =~= seq![b[0]] + b.drop_first());
        }
    } else if a.len() == 0 && b.len() == 0 {
        assert(a =~= b);
    }
}

/// The order is transitive.
pub proof fn lemma_chars_less_transitive(a: Seq<char>, b: Seq<char>, c: Seq<char>)
    requires
        chars_less(a, b),
        chars_less(b, c),
    ensures
        chars_less(a, c),
    decreases a.len(),
{
    if a.len() > 0 && b.len() > 0 && c.len() > 0 {
        if a[0] == b[0] && b[0] == c[0] {
            lemma_chars_less_transitive(a.drop_first(), b.drop_first(), c.drop_first());
        }
    }
}

/// "Not after" is transitive.
pub proof fn lemma_chars_not_after_transitive(a: Seq<char>, b: Seq<char>, c: Seq<char>)
    requires
        !chars_less(b, a),
        !chars_less(c, b),
    ensures
        !chars_less(c, a),
{
    lemma_chars_less_total(a, b);
    lemma_chars_less_total(b, c);
    if chars_less(c, a) {
        if a != b && b != c {
            lemma_chars_less_transitive(a, b, c);
            lemma_chars_less_total(a, c);
        } else if a == b {
            lemma_chars_less_total(b, c);
        } else {
            lemma_chars_less_total(a, b);
        }
    }
}

/// Whether the characters `a` come strictly before the characters `b`.
fn chars_before(a: &Vec<char>, b: &Vec<char>) -> (res: bool)
    ensures
        res == chars_less(a@, b@),
{
    let mut i: usize = 0;
    assert(a@.skip(0) =~= a@);
    assert(b@.skip(0) =~= b@);
    while i < a.len() && i < b.len()
        invariant
            i <= a@.len(),
            i <= b@.len(),
            chars_less(a@, b@) == chars_less(a@.skip(i as int), b@.skip(i as int)),
        decreases a@.len() - i,
    {
        let x = a[i];
        let y = b[i];
        assert(a@.skip(i as int)[0] == x);
        assert(b@.skip(i as int)[0] == y);
        if x != y {
            return (x as u32) < (y as u32);
        }
        assert(a@.skip(i as int).drop_first() =~= a@.skip(i + 1));
        assert(b@.skip(i as int).drop_first() =~= b@.skip(i + 1));
        i += 1;
    }
    i < b.len()
}

/// Whether the name `a` sorts strictly before the name `b`.
pub fn name_before(a: &str, b: &str) -> (res: bool)
    ensures
        res == chars_less(a@, b@),
{
    let x = chars_of(a);
    let y = chars_of(b);
    chars_before(&x, &y)
}

/// A window offered for capture, as far as the window list needs it.
#[derive(Debug)]
pub struct WindowInfo {
    /// The system's identifier of the window.
    pub window_id: u64,
    /// The name of the application owning the window; `None` when no
    /// application owns it.
    pub app_name: Option<String>,
    /// The bundle identifier of the owning application.
    pub bundle_id: String,
}

/// The name windows are sorted by: the owning application's name, empty
/// when there is none.
pub open spec fn app_name_of(w: WindowInfo) -> Seq<char> {
    match w.app_name {
        Some(n) => n@,
        None => Seq::empty(),
    }
}

/// Whether a window is offered for capture: it belongs to an application
/// with a name (an `.app` bundle), and not to this application, whose
/// bundle identifier is `own_bundle` when it has one.
pub open spec fn is_listed(w: WindowInfo, own_bundle: Option<Seq<char>>) -> bool {
    &&& app_name_of(w).len() > 0
    &&& match own_bundle {
        Some(b) => w.bundle_id@ != b,
        None => true,
    }
}

/// The view of an optional bundle identifier.
pub open spec fn bundle_view(own_bundle: Option<String>) -> Option<Seq<char>> {
    match own_bundle {
        Some(b) => Some(b@),
        None => None,
    }
}

/// No window comes after a later one by name.
pub open spec fn sorted_by_name(s: Seq<WindowInfo>) -> bool {
    forall|i: int, j: int|
        0 <= i < j < s.len() ==> !chars_less(
            app_name_of(#[trigger] s[j]),
            app_name_of(#[trigger] s[i]),
        )
}

/// `out[i]` is `input[perm[i]]`, each input taken once, sorted by name,
/// windows with equal names kept in their input order.
pub open spec fn sorts_stably(out: Seq<WindowInfo>, input: Seq<WindowInfo>, perm: Seq<int>) -> bool {
    &&& out.len() == input.len()
    &&& perm.len() == out.len()
    &&& forall|i: int|
        0 <= i < perm.len() ==> 0 <= #[trigger] perm[i] < input.len() && out[i] == input[perm[i]]
    &&& forall|i: int, j: int| 0 <= i < j < perm.len() ==> #[trigger] perm[i] != #[trigger] perm[j]
    &&& sorted_by_name(out)
    &&& forall|i: int, j: int|
        0 <= i < j < out.len() && app_name_of(#[trigger] out[i]) == app_name_of(#[trigger] out[j])
            ==> perm[i] < perm[j]
}

/// `out` holds the windows of `input` sorted by application name, windows
/// of equal name in their input order (a stable sort).
pub open spec fn stably_sorted_by_name(out: Seq<WindowInfo>, input: Seq<WindowInfo>) -> bool {
    exists|perm: Seq<int>| sorts_stably(out, input, perm)
}

/// The windows offered for capture out of `windows`, in their order.
pub open spec fn listed_windows(windows: Seq<WindowInfo>, own_bundle: Option<Seq<char>>) -> Seq<
    WindowInfo,
> {
    windows.filter(|w: WindowInfo| is_listed(w, own_bundle))
}

proof fn lemma_insert_sorted(out: Seq<WindowInfo>, p: int, x: WindowInfo)
    requires
        0 <= p <= out.len(),
        sorted_by_name(out),
        p > 0 ==> !chars_less(app_name_of(x), app_name_of(out[p - 1])),
        forall|k: int| p <= k < out.len() ==> chars_less(app_name_of(x), app_name_of(#[trigger] out[k])),
    ensures
        sorted_by_name(out.insert(p, x)),
{
    let s = out.insert(p, x);
    assert forall|i: int, j: int| 0 <= i < j < s.len() implies !chars_less(
        app_name_of(#[trigger] s[j]),
        app_name_of(#[trigger] s[i]),
    ) by {
        if i == p {
            lemma_chars_less_total(app_name_of(x), app_name_of(out[j - 1]));
        } else if j == p {
            if i < p - 1 {
                lemma_chars_not_after_transitive(
                    app_name_of(out[i]),
                    app_name_of(out[p - 1]),
                    app_name_of(x),
                );
            }
        } else if i < p && j > p {
            assert(s[j] == out[j - 1]);
        } else if i > p {
            assert(s[i] == out[i - 1] && s[j] == out[j - 1]);
        }
    }
}

proof fn lemma_insert_stable(out: Seq<WindowInfo>, perm: Seq<int>, p: int, x: WindowInfo, t: int)
    requires
        0 <= p <= out.len(),
        perm.len() == out.len(),
        forall|i: int| 0 <= i < perm.len() ==> #[trigger] perm[i] < t,
        forall|i: int, j: int|
            0 <= i < j < out.len() && app_name_of(#[trigger] out[i]) == app_name_of(#[trigger] out[j])
                ==> perm[i] < perm[j],
        forall|k: int| p <= k < out.len() ==> chars_less(app_name_of(x), app_name_of(#[trigger] out[k])),
    ensures
        forall|i: int, j: int|
            0 <= i < j < out.len() + 1 && app_name_of(#[trigger] out.insert(p, x)[i]) == app_name_of(
                #[trigger] out.insert(p, x)[j],
            ) ==> perm.insert(p, t)[i] < perm.insert(p, t)[j],
{
    let s = out.insert(p, x);
    let q = perm.insert(p, t);
    assert forall|i: int, j: int|
        0 <= i < j < out.len() + 1 && app_name_of(#[trigger] s[i]) == app_name_of(
            #[trigger] s[j],
        ) implies q[i] < q[j] by {
        if i == p {
            lemma_chars_less_irreflexive(app_name_of(x));
            assert(chars_less(app_name_of(x), app_name_of(out[j - 1])));
        } else if j == p {
            assert(q[i] == perm[i]);
        } else if i < p && j > p {
            assert(s[j] == out[j - 1] && q[j] == perm[j - 1]);
        } else if i > p {
            assert(s[i] == out[i - 1] && s[j] == out[j - 1]);
            assert(q[i] == perm[i - 1] && q[j] == perm[j - 1]);
        }
    }
}

/// The name a window is sorted by.
fn app_name_str(w: &WindowInfo) -> (name: &str)
    ensures
        name@ == app_name_of(*w),
{
    match &w.app_name {
        Some(n) => n.as_str(),
        None => {
            proof {
                reveal_strlit("");
            }
            ""
        },
    }
}

/// Sorts windows by application name, keeping windows of equal name in
/// their order (a stable insertion sort).
pub fn sort_by_app_name(windows: Vec<WindowInfo>) -> (res: Vec<WindowInfo>)
    ensures
        stably_sorted_by_name(res@, windows@),
{
    let ghost input = windows@;
    let mut rest = windows;
    let mut out: Vec<WindowInfo> = Vec::new();
    let ghost mut perm: Seq<int> = Seq::empty();
    let n = rest.len();
    let mut t: usize = 0;
    while t < n
        invariant
            n == input.len(),
            t <= n,
            rest@ == input.skip(t as int),
            out@.len() == t,
            perm.len() == t,
            forall|i: int|
                0 <= i < perm.len() ==> 0 <= #[trigger] perm[i] < t && out@[i] == input[perm[i]],
            forall|i: int, j: int| 0 <= i < j < perm.len() ==> #[trigger] perm[i] != #[trigger] perm[j],
            sorted_by_name(out@),
            forall|i: int, j: int|
                0 <= i < j < out@.len() && app_name_of(#[trigger] out@[i]) == app_name_of(
                    #[trigger] out@[j],
                ) ==> perm[i] < perm[j],
        decreases n - t,
    {
        let x = rest.remove(0);
        assert(x == input[t as int]);
        assert(rest@ =~= input.skip(t + 1));
        let mut p = out.len();
        while p > 0 && name_before(app_name_str(&x), app_name_str(&out[p - 1]))
            invariant
                p <= out@.len(),
                forall|k: int|
                    p <= k < out@.len() ==> chars_less(app_name_of(x), app_name_of(#[trigger] out@[k])),
            decreases p,
        {
            p -= 1;
        }
        proof {
            lemma_insert_sorted(out@, p as int, x);
            lemma_insert_stable(out@, perm, p as int, x, t as int);
        }
        let ghost old_out = out@;
        let ghost old_perm = perm;
        out.insert(p, x);
        proof {
            perm = perm.insert(p as int, t as int);
            assert forall|i: int| 0 <= i < perm.len() implies 0 <= #[trigger] perm[i] < t + 1
                && out@[i] == input[perm[i]] by {
                if i > p {
                    assert(perm[i] == old_perm[i - 1] && out@[i] == old_out[i - 1]);
                } else if i < p {
                    assert(perm[i] == old_perm[i] && out@[i] == old_out[i]);
                }
            }
            assert forall|i: int, j: int| 0 <= i < j < perm.len() implies #[trigger] perm[i]
                != #[trigger] perm[j] by {
                if i != p && j != p {
                    let i0 = if i < p { i } else { i - 1 };
                    let j0 = if j < p { j } else { j - 1 };
                    assert(perm[i] == old_perm[i0] && perm[j] == old_perm[j0]);
                } else if i == p {
                    assert(perm[j] == old_perm[j - 1]);
                } else {
                    assert(perm[i] == old_perm[i]);
                }
            }
        }
        t += 1;
    }
    assert(sorts_stably(out@, input, perm));
    out
}

/// Whether a window is offered for capture (see `is_listed`).
fn window_listed(w: &WindowInfo, own_bundle: &Option<String>) -> (res: bool)
    ensures
        res == is_listed(*w, bundle_view(*own_bundle)),
{
    let named = match &w.app_name {
        Some(n) => !n.as_str().is_empty(),
        None => false,
    };
    if !named {
        return false;
    }
    match own_bundle {
        Some(b) => w.bundle_id != *b,
        None => true,
    }
}

/// The windows that can be offered for capture, sorted by the name of the
/// owning application: windows of no application, or of an application
/// without a name, are left out, and so are the windows of this
/// application (bundle identifier `own_bundle`).
pub fn filter_windows(windows: Vec<WindowInfo>, own_bundle: &Option<String>) -> (res: Vec<
    WindowInfo,
>)
    ensures
        stably_sorted_by_name(res@, listed_windows(windows@, bundle_view(*own_bundle))),
{
    let ghost input = windows@;
    let ghost pred = |w: WindowInfo| is_listed(w, bundle_view(*own_bundle));
    let mut rest = windows;
    let mut kept: Vec<WindowInfo> = Vec::new();
    let n = rest.len();
    let mut i: usize = 0;
    assert(input.take(0).filter(pred) =~= Seq::<WindowInfo>::empty()) by {
        reveal(Seq::filter);
    }
    while i < n
        invariant
            n == input.len(),
            i <= n,
            rest@ == input.skip(i as int),
            kept@ == input.take(i as int).filter(pred),
            pred == (|w: WindowInfo| is_listed(w, bundle_view(*own_bundle))),
        decreases n - i,
    {
        let w = rest.remove(0);
        assert(w == input[i as int]);
        assert(rest@ =~= input.skip(i + 1));
        proof {
            assert(input.take(i + 1).drop_last() =~= input.take(i as int));
            reveal(Seq::filter);
        }
        if window_listed(&w, own_bundle) {
            kept.push(w);
        }
        i += 1;
    }
    assert(input.take(n as int) =~= input);
    sort_by_app_name(kept)
}

/// The window list offers exactly the windows of named applications other
/// than this one: each offered window is one of the given windows and is
/// listed, there are as many as there are such windows, and they come in
/// order of application name.
pub proof fn law_offered_windows(
    out: Seq<WindowInfo>,
    windows: Seq<WindowInfo>,
    own_bundle: Option<Seq<char>>,
)
    requires
        stably_sorted_by_name(out, listed_windows(windows, own_bundle)),
    ensures
        forall|k: int|
            0 <= k < out.len() ==> is_listed(#[trigger] out[k], own_bundle) && windows.contains(
                out[k],
            ),
        out.len() == listed_windows(windows, own_bundle).len(),
        sorted_by_name(out),
{
    let pred = |w: WindowInfo| is_listed(w, own_bundle);
    let kept = windows.filter(pred);
    let perm = choose|perm: Seq<int>| sorts_stably(out, kept, perm);
    assert forall|k: int| 0 <= k < out.len() implies is_listed(#[trigger] out[k], own_bundle)
        && windows.contains(out[k]) by {
        let i = perm[k];
        assert(0 <= i < kept.len() && out[k] == kept[i]);
        windows.lemma_filter_pred(pred, i);
        assert(kept.contains(kept[i]));
        windows.lemma_filter_contains_rev(pred, kept[i]);
    }
}

/// The identifiers of windows, in order.
pub open spec fn window_ids(windows: Seq<WindowInfo>) -> Seq<u64> {
    windows.map_values(|w: WindowInfo| w.window_id)
}

/// What can be captured after the shareable content is listed again, and
/// which display and window are chosen.
#[derive(Debug)]
pub struct AvailableContent {
    pub displays: Vec<u64>,
    pub windows: Vec<WindowInfo>,
    /// The running applications, as listed.
    pub apps: Vec<AppInfo>,
    pub selected_display: Option<u64>,
    pub selected_window: Option<u64>,
}

fn ids_of(windows: &Vec<WindowInfo>) -> (ids: Vec<u64>)
    ensures
        ids@ == window_ids(windows@),
{
    let mut ids: Vec<u64> = Vec::new();
    let mut i: usize = 0;
    while i < windows.len()
        invariant
            i <= windows@.len(),
            ids@ == window_ids(windows@.take(i as int)),
        decreases windows@.len() - i,
    {
        ids.push(windows[i].window_id);
        i += 1;
        assert(window_ids(windows@.take(i as int)) =~= window_ids(windows@.take(i - 1)).push(
            windows@[i - 1].window_id,
        ));
    }
    assert(windows@.take(i as int) =~= windows@);
    ids
}

/// Takes in a fresh listing of the shareable content: the displays and
/// the running applications as listed, the windows that can be offered (see `filter_windows`), and the
/// display and window to capture, each the current one while it is still
/// listed, otherwise the first listed.
pub fn refresh_available_content(
    displays: Vec<u64>,
    windows: Vec<WindowInfo>,
    apps: Vec<AppInfo>,
    own_bundle: &Option<String>,
    selected_display: Option<u64>,
    selected_window: Option<u64>,
) -> (c: AvailableContent)
    ensures
        c.displays@ == displays@,
        c.apps@ == apps@,
        stably_sorted_by_name(c.windows@, listed_windows(windows@, bundle_view(*own_bundle))),
        c.selected_display == reselected(selected_display, displays@),
        c.selected_window == reselected(selected_window, window_ids(c.windows@)),
{
    let windows = filter_windows(windows, own_bundle);
    let ids = ids_of(&windows);
    let selected_display = reselect(selected_display, &displays);
    let selected_window = reselect(selected_window, &ids);
    AvailableContent { displays, windows, apps, selected_display, selected_window }
}

/// A running application that can be left out of a display capture.
#[derive(Debug)]
pub struct AppInfo {
    /// The system's identifier of the application.
    pub app_id: u64,
    /// The application's bundle identifier.
    pub bundle_id: String,
}

/// Whether `app` is this application, whose bundle identifier is
/// `own_bundle` when it has one.
pub open spec fn is_own_app(app: AppInfo, own_bundle: Option<Seq<char>>) -> bool {
    match own_bundle {
        Some(b) => app.bundle_id@ == b,
        None => false,
    }
}

/// The applications to leave out of a display capture: when this
/// application is to be left out, the running applications with its bundle
/// identifier, in their order; otherwise none.
pub fn excluded_apps(apps: Vec<AppInfo>, own_bundle: &Option<String>, exclude_own: bool) -> (res: Vec<
    AppInfo,
>)
    ensures
        exclude_own ==> res@ == apps@.filter(|a: AppInfo| is_own_app(a, bundle_view(*own_bundle))),
        !exclude_own ==> res@.len() == 0,
{
    let mut kept: Vec<AppInfo> = Vec::new();
    if !exclude_own {
        return kept;
    }
    let ghost input = apps@;
    let ghost pred = |a: AppInfo| is_own_app(a, bundle_view(*own_bundle));
    let mut rest = apps;
    let n = rest.len();
    let mut i: usize = 0;
    assert(input.take(0).filter(pred) =~= Seq::<AppInfo>::empty()) by {
        reveal(Seq::filter);
    }
    while i < n
        invariant
            n == input.len(),
            i <= n,
            rest@ == input.skip(i as int),
            kept@ == input.take(i as int).filter(pred),
            pred == (|a: AppInfo| is_own_app(a, bundle_view(*own_bundle))),
        decreases n - i,
    {
        let a = rest.remove(0);
        assert(a == input[i as int]);
        assert(rest@ =~= input.skip(i + 1));
        proof {
            assert(input.take(i + 1).drop_last() =~= input.take(i as int));
            reveal(Seq::filter);
        }
        let own = match own_bundle {
            Some(b) => a.bundle_id == *b,
            None => false,
        };
        if own {
            kept.push(a);
        }
        i += 1;
    }
    assert(input.take(n as int) =~= input);
    kept
}

} // verus!
