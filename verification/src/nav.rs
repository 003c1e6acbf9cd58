//! Keys of the five views while navigating: cursor movement and the
//! per-row operations of the Today and Backlog lists, the inbox of pull
//! requests and Linear issues, the daily review and the sync table.

use vstd::prelude::*;
use vstd::view::View as _;

use crate::app::{
    active_plan, backlog_rows, display_order, queued, status_position, switched, toast_is,
    todo_refs, pr_refs, linear_refs, ActionView, App, ConfirmAction, LinkKind, Mode, SidebarField,
    ToastKind, View,
};
use crate::dates::{day_in_range, day_label, day_string};
use crate::edit::{byte_len, caret_ok, lemma_boundary_ok, lemma_offset_ends, text_len};
use crate::form::{form_wf, FormView};
use crate::gql::{LinearIssue, PullRequest, Todo};
use crate::keys::KeyCode;
use crate::pick::{
    lemma_pair_order_is, linear_done, linear_is_done, linear_matches, linear_matches_search,
    pair_order, pair_views, pr_closed, pr_is_closed, pr_matches, pr_matches_search, sort_pairs,
};
use crate::text::{chars_of, owned, push_str, string_of};

verus! {

broadcast use vstd::seq_lib::group_seq_properties;

// ---- Opening forms ----

/// The description of a todo, empty when it has none.
pub open spec fn desc_text(t: Todo) -> Seq<char> {
    match t.description {
        Some(d) => d@,
        None => Seq::empty(),
    }
}

/// A fresh add form: the title field focused, nothing typed.
pub open spec fn is_fresh_add(m: Mode) -> bool {
    &&& m is SidebarAdd
    &&& m.form_view() == FormView {
        field: SidebarField::Title,
        input_active: false,
        title: Seq::empty(),
        title_caret: 0,
        desc: Seq::empty(),
        desc_caret: 0,
        desc_scroll: 0,
        tag: Seq::empty(),
        tag_caret: 0,
        link_kind: LinkKind::Pr,
        link_selection: 0,
        attaching: false,
        link_search: Seq::empty(),
        scroll: 0,
        pending: Seq::empty(),
    }
}

/// The edit form of a todo as it opens: the description focused, the title
/// and description filled in, the title caret at its end.
pub open spec fn is_fresh_edit(m: Mode, t: Todo) -> bool {
    &&& m is SidebarEdit
    &&& m->SidebarEdit_id == t.id
    &&& m.form_view() == FormView {
        field: SidebarField::Description,
        input_active: false,
        title: t.title@,
        title_caret: byte_len(t.title@) as int,
        desc: desc_text(t),
        desc_caret: 0,
        desc_scroll: 0,
        tag: Seq::empty(),
        tag_caret: 0,
        link_kind: LinkKind::Pr,
        link_selection: 0,
        attaching: false,
        link_search: Seq::empty(),
        scroll: 0,
        pending: Seq::empty(),
    }
}

/// The sidebar needs 100 columns: narrower, an error toast says so.
pub open spec fn too_narrow(old: App, new: App) -> bool {
    &&& toast_is(new.toast, ToastKind::Error, "terminal too narrow for sidebar"@)
    &&& new == (App { toast: new.toast, ..old })
}

/// `a`: opens the add form.
pub open spec fn add_opened(old: App, new: App) -> bool {
    if old.content_width < 100 {
        too_narrow(old, new)
    } else {
        is_fresh_add(new.mode) && new == (App { mode: new.mode, ..old })
    }
}

/// `e`/Enter: opens the edit form of the row under the cursor and loads its
/// detail.
pub open spec fn edit_opened(old: App, new: App, rows: Seq<Todo>) -> bool {
    if old.content_width < 100 {
        too_narrow(old, new)
    } else if old.cursor < rows.len() {
        let t = rows[old.cursor as int];
        &&& is_fresh_edit(new.mode, t)
        &&& new.detail_loaded_id == Some(t.id)
        &&& new.detail is None
        &&& queued(old.pending@, new.pending@, ActionView::FetchDetail { id: t.id })
        &&& new == (App {
            mode: new.mode,
            detail_loaded_id: new.detail_loaded_id,
            detail: new.detail,
            pending: new.pending,
            ..old
        })
    } else {
        new == old
    }
}

/// `r`: renames the row under the cursor inline, the caret at the end.
pub open spec fn rename_opened(old: App, new: App, rows: Seq<Todo>) -> bool {
    if old.cursor < rows.len() {
        let t = rows[old.cursor as int];
        &&& new.mode matches Mode::InlineEdit { id, input, caret } && id == t.id && input@
            == t.title@ && caret == byte_len(t.title@)
        &&& new == (App { mode: new.mode, ..old })
    } else {
        new == old
    }
}

/// Space/`s`: opens the status popup on the row's status.
pub open spec fn status_opened(old: App, new: App, rows: Seq<Todo>) -> bool {
    if old.cursor < rows.len() {
        let t = rows[old.cursor as int];
        new == (App {
            mode: Mode::StatusSelect {
                id: t.id,
                selection: match status_position(t.status@) {
                    Some(i) => i as usize,
                    None => 0,
                },
                reason: None,
            },
            ..old
        })
    } else {
        new == old
    }
}

/// `/`: opens the list filter, empty.
pub open spec fn filter_opened(old: App, new: App) -> bool {
    &&& new.mode matches Mode::Filter { input, caret } && input@.len() == 0 && caret == 0
    &&& new == (App { mode: new.mode, ..old })
}

/// j/Down and k/Up within `n` rows.
pub open spec fn cursor_moved(old: App, new: App, key: KeyCode, n: int) -> bool {
    match key {
        KeyCode::Char('j') | KeyCode::Down => if old.cursor + 1 < n {
            new == (App { cursor: (old.cursor + 1) as usize, ..old })
        } else {
            new == old
        },
        _ => if old.cursor > 0 {
            new == (App { cursor: (old.cursor - 1) as usize, ..old })
        } else {
            new == old
        },
    }
}

/// Moving down then up comes back to the same row, when there was a row
/// below; neither move leaves the list.
pub proof fn lemma_cursor_down_then_up(a: App, b: App, c: App, n: int)
    requires
        a.cursor < n <= usize::MAX,
        cursor_moved(a, b, KeyCode::Char('j'), n),
        cursor_moved(b, c, KeyCode::Char('k'), n),
    ensures
        b.cursor < n,
        c.cursor < n,
        a.cursor + 1 < n ==> c == a && b.cursor == a.cursor + 1,
        a.cursor + 1 >= n ==> b == a,
        a.cursor + 1 >= n && a.cursor > 0 ==> c.cursor == a.cursor - 1,
{
    if a.cursor + 1 < n {
        assert(c == (App { cursor: a.cursor, ..a }));
    }
}

fn empty_text() -> (r: String)
    ensures
        r@.len() == 0,
{
    String::new()
}

fn fresh_add_mode() -> (m: Mode)
    ensures
        is_fresh_add(m),
        form_wf(m.form_view()),
{
    let m = Mode::SidebarAdd {
        field: SidebarField::Title,
        input_active: false,
        title_input: empty_text(),
        title_caret: 0,
        desc_input: empty_text(),
        desc_caret: 0,
        desc_scroll: 0,
        tag_input: empty_text(),
        tag_caret: 0,
        link_kind: LinkKind::Pr,
        link_selection: 0,
        attaching: false,
        link_search: empty_text(),
        scroll: 0,
        pending_link_pr: Vec::new(),
    };
    proof {
        let f = m.form_view();
        assert(f.title =~= Seq::<char>::empty());
        assert(f.desc =~= Seq::<char>::empty());
        assert(f.tag =~= Seq::<char>::empty());
        assert(f.link_search =~= Seq::<char>::empty());
        assert(f.pending =~= Seq::<i32>::empty());
        lemma_boundary_ok(Seq::<char>::empty(), 0);
        lemma_offset_ends(Seq::<char>::empty());
    }
    m
}

fn fresh_edit_mode(t: &Todo) -> (m: Mode)
    ensures
        is_fresh_edit(m, *t),
        form_wf(m.form_view()),
{
    let title = owned(t.title.as_str());
    let caret = text_len(t.title.as_str());
    let desc = match &t.description {
        Some(d) => owned(d.as_str()),
        None => empty_text(),
    };
    let m = Mode::SidebarEdit {
        id: t.id,
        field: SidebarField::Description,
        input_active: false,
        title_input: title,
        title_caret: caret,
        desc_input: desc,
        desc_caret: 0,
        desc_scroll: 0,
        tag_input: empty_text(),
        tag_caret: 0,
        link_kind: LinkKind::Pr,
        link_selection: 0,
        attaching: false,
        link_search: empty_text(),
        scroll: 0,
    };
    proof {
        let f = m.form_view();
        assert(f.desc =~= desc_text(*t));
        assert(f.tag =~= Seq::<char>::empty());
        assert(f.link_search =~= Seq::<char>::empty());
        lemma_boundary_ok(t.title@, t.title@.len() as int);
        lemma_offset_ends(t.title@);
        lemma_boundary_ok(f.desc, 0);
        lemma_offset_ends(f.desc);
        lemma_boundary_ok(Seq::<char>::empty(), 0);
        lemma_offset_ends(Seq::<char>::empty());
    }
    m
}

fn status_selection(status: &str) -> (r: usize)
    ensures
        r == (match status_position(status@) {
            Some(i) => i as usize,
            None => 0,
        }),
{
    match crate::app::status_index(status) {
        Some(i) => i,
        None => 0,
    }
}

impl App {
    fn open_add(&mut self)
        ensures
            add_opened(*old(self), *final(self)),
    {
        if self.content_width < 100 {
            self.set_error("terminal too narrow for sidebar");
        } else {
            self.mode = fresh_add_mode();
        }
    }

    fn open_filter(&mut self)
        ensures
            filter_opened(*old(self), *final(self)),
    {
        self.mode = Mode::Filter { input: empty_text(), caret: 0 };
    }
}

/// Keys of the Today view. `rows` are today's plan in display order and
/// the cursor indexes them.
pub open spec fn today_post(old: App, new: App, key: KeyCode) -> bool {
    let rows = display_order(active_plan(old.data.plan@));
    let has = old.cursor < rows.len();
    let t = rows[old.cursor as int];
    match key {
        KeyCode::Char('j') | KeyCode::Down | KeyCode::Char('k') | KeyCode::Up => cursor_moved(
            old,
            new,
            key,
            rows.len() as int,
        ),
        KeyCode::Char('a') => add_opened(old, new),
        KeyCode::Char('r') => rename_opened(old, new, rows),
        KeyCode::Enter | KeyCode::Char('e') => edit_opened(old, new, rows),
        KeyCode::Char('D') => new == (App { show_done: !old.show_done, ..old }),
        KeyCode::Char('x') => if has {
            new == (App { mode: Mode::Confirm { action: ConfirmAction::Unplan { id: t.id } }, ..old })
        } else {
            new == old
        },
        KeyCode::Char('J') => if has {
            new == (App { mode: Mode::Reorder { source_id: t.id }, ..old })
        } else {
            new == old
        },
        KeyCode::Char(' ') | KeyCode::Char('s') => status_opened(old, new, rows),
        KeyCode::Char('/') => filter_opened(old, new),
        KeyCode::Char('c') => {
            &&& new.mode matches Mode::Confirm { action: ConfirmAction::CarryOver { from, to } }
                && from@ == day_label(old.logical_date - 1) && to@ == day_label(
                old.logical_date as int,
            )
            &&& new == (App { mode: new.mode, ..old })
        },
        KeyCode::Char('b') => switched(old, new, View::Backlog),
        KeyCode::Char('R') => {
            &&& new.view == View::Review
            &&& new.review_date == old.logical_date - 1
            &&& queued(
                old.pending@,
                new.pending@,
                ActionView::FetchReview { date: day_label(old.logical_date - 1) },
            )
            &&& new == (App {
                view: new.view,
                review_date: new.review_date,
                pending: new.pending,
                ..old
            })
        },
        _ => new == old,
    }
}

/// Keys of the Backlog view. `rows` are the todos not on today's plan, in
/// display order.
pub open spec fn backlog_post(old: App, new: App, key: KeyCode) -> bool {
    let rows = display_order(backlog_rows(old.data.todos@, old.data.plan@));
    let has = old.cursor < rows.len();
    let t = rows[old.cursor as int];
    match key {
        KeyCode::Char('j') | KeyCode::Down => new == (App {
            cursor: if old.cursor < usize::MAX {
                (old.cursor + 1) as usize
            } else {
                old.cursor
            },
            ..old
        }),
        KeyCode::Char('k') | KeyCode::Up => if old.cursor > 0 {
            new == (App { cursor: (old.cursor - 1) as usize, ..old })
        } else {
            new == old
        },
        KeyCode::Char('/') => filter_opened(old, new),
        KeyCode::Char('t') => if has {
            &&& queued(old.pending@, new.pending@, ActionView::PlanToday { todo_id: t.id })
            &&& new == (App { pending: new.pending, ..old })
        } else {
            new == old
        },
        KeyCode::Char('D') => new == (App { show_done: !old.show_done, ..old }),
        KeyCode::Char('a') => add_opened(old, new),
        KeyCode::Char('r') => rename_opened(old, new, rows),
        KeyCode::Enter | KeyCode::Char('e') => edit_opened(old, new, rows),
        KeyCode::Char(' ') | KeyCode::Char('s') => status_opened(old, new, rows),
        _ => new == old,
    }
}

impl App {
    fn rows_key(&mut self, key: KeyCode, rows_now: Ghost<Seq<Todo>>, today: bool)
        requires
            rows_now@ == (if today {
                display_order(active_plan(old(self).data.plan@))
            } else {
                display_order(backlog_rows(old(self).data.todos@, old(self).data.plan@))
            }),
            key == KeyCode::Char('r') || key == KeyCode::Enter || key == KeyCode::Char('e') || key
                == KeyCode::Char(' ') || key == KeyCode::Char('s'),
        ensures
            (key == KeyCode::Char('r')) ==> rename_opened(*old(self), *final(self), rows_now@),
            (key == KeyCode::Enter || key == KeyCode::Char('e')) ==> edit_opened(
                *old(self),
                *final(self),
                rows_now@,
            ),
            (key == KeyCode::Char(' ') || key == KeyCode::Char('s')) ==> status_opened(
                *old(self),
                *final(self),
                rows_now@,
            ),
    {
        let rows = if today {
            self.today_plan()
        } else {
            self.backlog()
        };
        let cur = self.cursor;
        if key == KeyCode::Char('r') {
            if cur < rows.len() {
                let t = rows[cur];
                let m = Mode::InlineEdit {
                    id: t.id,
                    input: owned(t.title.as_str()),
                    caret: text_len(t.title.as_str()),
                };
                self.mode = m;
            }
        } else if key == KeyCode::Enter || key == KeyCode::Char('e') {
            if self.content_width < 100 {
                self.set_error("terminal too narrow for sidebar");
            } else if cur < rows.len() {
                let t = rows[cur];
                let id = t.id;
                let m = fresh_edit_mode(t);
                self.mode = m;
                self.spawn_fetch_detail(id);
            }
        } else {
            if cur < rows.len() {
                let t = rows[cur];
                let m = Mode::StatusSelect {
                    id: t.id,
                    selection: status_selection(t.status.as_str()),
                    reason: None,
                };
                self.mode = m;
            }
        }
    }

    /// Keys of the Today view while navigating.
    pub fn nav_today(&mut self, key: KeyCode)
        requires
            day_in_range(old(self).logical_date as int),
        ensures
            today_post(*old(self), *final(self), key),
    {
        let ghost rows_now = display_order(active_plan(self.data.plan@));
        match key {
            KeyCode::Down => self.cursor_down_today(),
            KeyCode::Up => self.cursor_up(),
            KeyCode::Enter => self.rows_key(key, Ghost(rows_now), true),
            KeyCode::Char(c) => {
                if c == 'j' {
                    self.cursor_down_today();
                } else if c == 'k' {
                    self.cursor_up();
                } else if c == 'a' {
                    self.open_add();
                } else if c == 'r' || c == 'e' || c == ' ' || c == 's' {
                    self.rows_key(key, Ghost(rows_now), true);
                } else if c == 'D' {
                    self.show_done = !self.show_done;
                } else if c == 'x' || c == 'J' {
                    let rows = self.today_plan();
                    if self.cursor < rows.len() {
                        let id = rows[self.cursor].id;
                        self.mode = if c == 'x' {
                            Mode::Confirm { action: ConfirmAction::Unplan { id } }
                        } else {
                            Mode::Reorder { source_id: id }
                        };
                    }
                } else if c == '/' {
                    self.open_filter();
                } else if c == 'c' {
                    let from = day_string(self.logical_date - 1);
                    let to = day_string(self.logical_date);
                    self.mode = Mode::Confirm { action: ConfirmAction::CarryOver { from, to } };
                } else if c == 'b' {
                    self.switch_view(View::Backlog);
                } else if c == 'R' {
                    self.view = View::Review;
                    self.review_date = self.logical_date - 1;
                    self.spawn_fetch_review();
                }
            },
            _ => {},
        }
    }

    fn cursor_down_today(&mut self)
        ensures
            cursor_moved(
                *old(self),
                *final(self),
                KeyCode::Down,
                display_order(active_plan(old(self).data.plan@)).len() as int,
            ),
    {
        let n = self.today_plan().len();
        if self.cursor < n && self.cursor + 1 < n {
            self.cursor = self.cursor + 1;
        }
    }

    fn cursor_up(&mut self)
        ensures
            final(self).cursor == (if old(self).cursor > 0 {
                old(self).cursor - 1
            } else {
                old(self).cursor as int
            }),
            *final(self) == (App { cursor: final(self).cursor, ..*old(self) }),
    {
        if self.cursor > 0 {
            self.cursor = self.cursor - 1;
        }
    }

    /// Keys of the Backlog view while navigating.
    pub fn nav_backlog(&mut self, key: KeyCode)
        ensures
            backlog_post(*old(self), *final(self), key),
    {
        let ghost rows_now = display_order(backlog_rows(self.data.todos@, self.data.plan@));
        match key {
            KeyCode::Down => {
                self.cursor = self.cursor.saturating_add(1);
            },
            KeyCode::Up => self.cursor_up(),
            KeyCode::Enter => self.rows_key(key, Ghost(rows_now), false),
            KeyCode::Char(c) => {
                if c == 'j' {
                    self.cursor = self.cursor.saturating_add(1);
                } else if c == 'k' {
                    self.cursor_up();
                } else if c == '/' {
                    self.open_filter();
                } else if c == 't' {
                    let rows = self.backlog();
                    if self.cursor < rows.len() {
                        let id = rows[self.cursor].id;
                        self.spawn_plan_today(id);
                    }
                } else if c == 'D' {
                    self.show_done = !self.show_done;
                } else if c == 'a' {
                    self.open_add();
                } else if c == 'r' || c == 'e' || c == ' ' || c == 's' {
                    self.rows_key(key, Ghost(rows_now), false);
                }
            },
            _ => {},
        }
    }
}

// ---- Inbox ----

/// The text the inbox is filtered by: what is being typed in the filter,
/// else the committed filter.
pub open spec fn inbox_filter(app: App) -> Seq<char> {
    match app.mode {
        Mode::Filter { input, .. } => input@,
        _ => app.filter@,
    }
}

/// A pull request the inbox lists: dismissed ones only when asked for,
/// and only those matching the filter.
pub open spec fn inbox_keeps_pr(app: App, p: PullRequest) -> bool {
    (app.show_dismissed || p.dismissed_at is None) && pr_matches(p, inbox_filter(app))
}

/// The listed pull requests that are (or are not) closed or merged, in
/// data order.
pub open spec fn inbox_pr_part(app: App, closed: bool) -> Seq<PullRequest> {
    app.data.pulls@.filter(|p: PullRequest| inbox_keeps_pr(app, p) && pr_closed(p.state@) == closed)
}

/// Pull requests the inbox shows before ordering: the open ones, then the
/// closed and merged ones when they are shown.
pub open spec fn inbox_pr_pool(app: App) -> Seq<PullRequest> {
    inbox_pr_part(app, false) + if app.show_closed {
        inbox_pr_part(app, true)
    } else {
        Seq::empty()
    }
}

/// The repository of a pull request, the key the inbox groups by.
pub open spec fn repo_key(p: PullRequest) -> (Seq<char>, Seq<char>) {
    (p.owner@, p.repo@)
}

/// The pull requests in inbox order: by owner and repository, and in data
/// order within a repository.
pub open spec fn inbox_shown_prs(app: App) -> Seq<PullRequest> {
    let pool = inbox_pr_pool(app);
    pair_order(pool.map_values(|p: PullRequest| repo_key(p))).map_values(|i: usize| pool[i as int])
}

/// A Linear issue the inbox lists: dismissed ones only when asked for, and
/// only those matching the filter.
pub open spec fn inbox_keeps_linear(app: App, l: LinearIssue) -> bool {
    (app.show_dismissed || l.dismissed_at is None) && linear_matches(l, inbox_filter(app))
}

/// The listed Linear issues that are (or are not) completed or canceled,
/// in data order.
pub open spec fn inbox_linear_part(app: App, done: bool) -> Seq<LinearIssue> {
    app.data.linears@.filter(|l: LinearIssue| inbox_keeps_linear(app, l) && linear_done(l.state_type@) == done)
}

/// The Linear issues in inbox order: active ones, then completed and
/// canceled ones when they are shown, each part in data order.
pub open spec fn inbox_shown_linears(app: App) -> Seq<LinearIssue> {
    inbox_linear_part(app, false) + if app.show_closed {
        inbox_linear_part(app, true)
    } else {
        Seq::empty()
    }
}

fn filter_text(app: &App) -> (r: &str)
    ensures
        r@ == inbox_filter(*app),
{
    match &app.mode {
        Mode::Filter { input, .. } => input.as_str(),
        _ => app.filter.as_str(),
    }
}

/// The listed pull requests that are (or are not) closed or merged.
fn pr_part(app: &App, closed: bool) -> (r: Vec<&PullRequest>)
    ensures
        pr_refs(r@) == inbox_pr_part(*app, closed),
{
    let filter = filter_text(app);
    let ghost pred = |p: PullRequest| inbox_keeps_pr(*app, p) && pr_closed(p.state@) == closed;
    let mut pool: Vec<&PullRequest> = Vec::new();
    let mut i: usize = 0;
    while i < app.data.pulls.len()
        invariant
            i <= app.data.pulls.len(),
            filter@ == inbox_filter(*app),
            pred == (|p: PullRequest| inbox_keeps_pr(*app, p) && pr_closed(p.state@) == closed),
            pr_refs(pool@) == app.data.pulls@.take(i as int).filter(pred),
        decreases app.data.pulls.len() - i,
    {
        proof {
            assert(app.data.pulls@.take(i + 1) =~= app.data.pulls@.take(i as int).push(
                app.data.pulls@[i as int],
            ));
            app.data.pulls@.take(i as int).lemma_filter_push(app.data.pulls@[i as int], pred);
        }
        let p = &app.data.pulls[i];
        if (app.show_dismissed || p.dismissed_at.is_none()) && pr_matches_search(p, filter)
            && pr_is_closed(p.state.as_str()) == closed {
            pool.push(p);
        }
        assert(pr_refs(pool@) =~= app.data.pulls@.take(i + 1).filter(pred));
        i += 1;
    }
    assert(app.data.pulls@.take(i as int) =~= app.data.pulls@);
    pool
}

/// The listed Linear issues that are (or are not) completed or canceled.
fn linear_part(app: &App, done: bool) -> (r: Vec<&LinearIssue>)
    ensures
        linear_refs(r@) == inbox_linear_part(*app, done),
{
    let filter = filter_text(app);
    let ghost pred = |l: LinearIssue| inbox_keeps_linear(*app, l) && linear_done(l.state_type@) == done;
    let mut out: Vec<&LinearIssue> = Vec::new();
    let mut i: usize = 0;
    while i < app.data.linears.len()
        invariant
            i <= app.data.linears.len(),
            filter@ == inbox_filter(*app),
            pred == (|l: LinearIssue| inbox_keeps_linear(*app, l) && linear_done(l.state_type@) == done),
            linear_refs(out@) == app.data.linears@.take(i as int).filter(pred),
        decreases app.data.linears.len() - i,
    {
        proof {
            assert(app.data.linears@.take(i + 1) =~= app.data.linears@.take(i as int).push(
                app.data.linears@[i as int],
            ));
            app.data.linears@.take(i as int).lemma_filter_push(app.data.linears@[i as int], pred);
        }
        let l = &app.data.linears[i];
        if (app.show_dismissed || l.dismissed_at.is_none()) && linear_matches_search(l, filter)
            && linear_is_done(l.state_type.as_str()) == done {
            out.push(l);
        }
        assert(linear_refs(out@) =~= app.data.linears@.take(i + 1).filter(pred));
        i += 1;
    }
    assert(app.data.linears@.take(i as int) =~= app.data.linears@);
    out
}

/// Pull requests in the order the inbox table displays them.
pub fn inbox_display_prs(app: &App) -> (r: Vec<&PullRequest>)
    ensures
        pr_refs(r@) == inbox_shown_prs(*app),
{
    let mut pool = pr_part(app, false);
    if app.show_closed {
        let more = pr_part(app, true);
        let ghost first = pr_refs(pool@);
        let mut t: usize = 0;
        while t < more.len()
            invariant
                t <= more.len(),
                pr_refs(pool@) == first + pr_refs(more@).take(t as int),
            decreases more.len() - t,
        {
            let ghost before = pool@;
            pool.push(more[t]);
            assert(pr_refs(pool@) =~= pr_refs(before).push(*more@[t as int]));
            assert(pr_refs(more@).take(t + 1) =~= pr_refs(more@).take(t as int).push(*more@[t as int]));
            assert(pr_refs(pool@) =~= first + pr_refs(more@).take(t + 1));
            t += 1;
        }
        assert(pr_refs(more@).take(more.len() as int) =~= pr_refs(more@));
    } else {
        assert(pr_refs(pool@) =~= inbox_pr_pool(*app));
    }
    let ghost pv = pr_refs(pool@);
    let mut keys: Vec<(Vec<char>, Vec<char>)> = Vec::new();
    let mut j: usize = 0;
    while j < pool.len()
        invariant
            j <= pool.len(),
            pv == pr_refs(pool@),
            keys.len() == j,
            forall|k: int| 0 <= k < j ==> (#[trigger] keys@[k]).0@ == pv[k].owner@ && keys@[k].1@
                == pv[k].repo@,
        decreases pool.len() - j,
    {
        keys.push((chars_of(pool[j].owner.as_str()), chars_of(pool[j].repo.as_str())));
        j += 1;
    }
    assert(pair_views(keys@) =~= pv.map_values(|p: PullRequest| repo_key(p)));
    let order = sort_pairs(&keys);
    proof {
        lemma_pair_order_is(pair_views(keys@), order@);
    }
    let mut out: Vec<&PullRequest> = Vec::new();
    let mut k: usize = 0;
    while k < order.len()
        invariant
            k <= order.len(),
            pv == pr_refs(pool@),
            forall|x: usize| order@.contains(x) <==> x < pool.len(),
            pr_refs(out@) == order@.take(k as int).map_values(|i: usize| pv[i as int]),
        decreases order.len() - k,
    {
        assert(order@.contains(order@[k as int]));
        let ghost before = out@;
        out.push(pool[order[k]]);
        proof {
            let f = |i: usize| pv[i as int];
            assert(order@.take(k + 1) =~= order@.take(k as int).push(order@[k as int]));
            assert(order@.take(k + 1).map_values(f) =~= order@.take(k as int).map_values(f).push(
                f(order@[k as int]),
            ));
            assert(pr_refs(out@) =~= pr_refs(before).push(*pool@[order@[k as int] as int]));
        }
        k += 1;
    }
    assert(order@.take(k as int) =~= order@);
    out
}

/// Linear issues in the order the inbox table displays them.
pub fn inbox_display_linears(app: &App) -> (r: Vec<&LinearIssue>)
    ensures
        linear_refs(r@) == inbox_shown_linears(*app),
{
    let mut out = linear_part(app, false);
    if app.show_closed {
        let more = linear_part(app, true);
        let ghost first = linear_refs(out@);
        let mut t: usize = 0;
        while t < more.len()
            invariant
                t <= more.len(),
                linear_refs(out@) == first + linear_refs(more@).take(t as int),
            decreases more.len() - t,
        {
            let ghost before = out@;
            out.push(more[t]);
            assert(linear_refs(out@) =~= linear_refs(before).push(*more@[t as int]));
            assert(linear_refs(more@).take(t + 1) =~= linear_refs(more@).take(t as int).push(*more@[t as int]));
            assert(linear_refs(out@) =~= first + linear_refs(more@).take(t + 1));
            t += 1;
        }
        assert(linear_refs(more@).take(more.len() as int) =~= linear_refs(more@));
    } else {
        assert(linear_refs(out@) =~= inbox_shown_linears(*app));
    }
    out
}

/// The url of the inbox row under the cursor.
pub open spec fn inbox_url(app: App) -> Option<Seq<char>> {
    let prs = inbox_shown_prs(app);
    let lins = inbox_shown_linears(app);
    if app.cursor < prs.len() {
        Some(prs[app.cursor as int].url@)
    } else if app.cursor - prs.len() < lins.len() {
        Some(lins[app.cursor - prs.len()].url@)
    } else {
        None
    }
}

/// Keys of the inbox: the rows are the shown pull requests, then the
/// shown Linear issues.
pub open spec fn inbox_post(old: App, new: App, key: KeyCode) -> bool {
    let prs = inbox_shown_prs(old);
    let lins = inbox_shown_linears(old);
    let np = prs.len() as int;
    let cur = old.cursor as int;
    let on_pr = cur < np;
    let on_lin = !on_pr && cur - np < lins.len();
    match key {
        KeyCode::Char('j') | KeyCode::Down => if old.cursor + 1 < np + lins.len() && old.cursor
            < usize::MAX {
            new == (App { cursor: (old.cursor + 1) as usize, ..old })
        } else {
            new == old
        },
        KeyCode::Char('k') | KeyCode::Up => cursor_moved(old, new, key, np + lins.len()),
        KeyCode::Char('C') => if on_pr {
            queued(
                old.pending@,
                new.pending@,
                ActionView::TodoFromPr { pr_id: prs[cur].id, plan_today: true },
            ) && new == (App { pending: new.pending, ..old })
        } else if on_lin {
            queued(
                old.pending@,
                new.pending@,
                ActionView::TodoFromLinear { issue_id: lins[cur - np].id, plan_today: true },
            ) && new == (App { pending: new.pending, ..old })
        } else {
            new == old
        },
        KeyCode::Char('d') => if on_pr {
            queued(old.pending@, new.pending@, ActionView::DismissPr { id: prs[cur].id }) && new
                == (App { pending: new.pending, ..old })
        } else {
            new == old
        },
        KeyCode::Char('D') => new == (App { show_closed: !old.show_closed, cursor: 0, ..old }),
        KeyCode::Char('s') => queued(
            old.pending@,
            new.pending@,
            if on_pr {
                ActionView::SyncGithub
            } else {
                ActionView::SyncLinear
            },
        ) && new == (App { pending: new.pending, ..old }),
        KeyCode::Char('o') => match inbox_url(old) {
            Some(u) => {
                &&& queued(old.pending@, new.pending@, ActionView::OpenUrl { url: u })
                &&& toast_is(new.toast, ToastKind::Success, "opened "@ + u)
                &&& new == (App { pending: new.pending, toast: new.toast, ..old })
            },
            None => new == old,
        },
        KeyCode::Char('L') => if on_pr {
            new == (App {
                mode: Mode::LinkTodo { pr_id: Some(prs[cur].id), linear_issue_id: None, selection: 0 },
                ..old
            })
        } else if on_lin {
            new == (App {
                mode: Mode::LinkTodo {
                    pr_id: None,
                    linear_issue_id: Some(lins[cur - np].id),
                    selection: 0,
                },
                ..old
            })
        } else {
            new == old
        },
        KeyCode::Char('/') => filter_opened(old, new),
        _ => new == old,
    }
}

// ---- Review and Sync ----

/// Keys of the daily review: h/l step the reviewed day, g returns to the
/// logical day; each loads that day's review.
pub open spec fn review_post(old: App, new: App, key: KeyCode) -> bool {
    let day = match key {
        KeyCode::Char('h') | KeyCode::Left => Some(old.review_date - 1),
        KeyCode::Char('l') | KeyCode::Right => Some(old.review_date + 1),
        KeyCode::Char('g') => Some(old.logical_date as int),
        _ => None,
    };
    match day {
        Some(d) => {
            &&& new.review_date == d
            &&& queued(old.pending@, new.pending@, ActionView::FetchReview { date: day_label(d) })
            &&& new == (App { review_date: new.review_date, pending: new.pending, ..old })
        },
        None => new == old,
    }
}

/// Keys of the sync table: j/k move, `s` syncs the source under the
/// cursor, `S` syncs everything.
pub open spec fn sync_post(old: App, new: App, key: KeyCode) -> bool {
    let rows = old.data.sync@;
    match key {
        KeyCode::Char('j') | KeyCode::Down | KeyCode::Char('k') | KeyCode::Up => cursor_moved(
            old,
            new,
            key,
            rows.len() as int,
        ),
        KeyCode::Char('s') => if old.cursor < rows.len() {
            queued(
                old.pending@,
                new.pending@,
                if rows[old.cursor as int].source@ == "linear"@ {
                    ActionView::SyncLinear
                } else {
                    ActionView::SyncGithub
                },
            ) && new == (App { pending: new.pending, ..old })
        } else {
            new == old
        },
        KeyCode::Char('S') => queued(old.pending@, new.pending@, ActionView::SyncAll) && new == (
        App { pending: new.pending, ..old }),
        _ => new == old,
    }
}

/// The review keys that step the day keep it a date chrono can represent.
pub open spec fn review_key_ok(app: App, key: KeyCode) -> bool {
    &&& (key == KeyCode::Char('h') || key == KeyCode::Left) ==> day_in_range(app.review_date - 1)
    &&& (key == KeyCode::Char('l') || key == KeyCode::Right) ==> day_in_range(app.review_date + 1)
}

impl App {
    /// Keys of the inbox while navigating.
    pub fn nav_inbox(&mut self, key: KeyCode)
        ensures
            inbox_post(*old(self), *final(self), key),
    {
        let (np, total, cur_pr, cur_lin, url) = {
            let prs = inbox_display_prs(self);
            let lins = inbox_display_linears(self);
            let np = prs.len();
            let cur = self.cursor;
            let cur_pr: Option<i32> = if cur < np {
                Some(prs[cur].id)
            } else {
                None
            };
            let cur_lin: Option<i32> = if cur >= np && cur - np < lins.len() {
                Some(lins[cur - np].id)
            } else {
                None
            };
            let url: Option<String> = if cur < np {
                Some(owned(prs[cur].url.as_str()))
            } else if cur - np < lins.len() {
                Some(owned(lins[cur - np].url.as_str()))
            } else {
                None
            };
            let total: u128 = np as u128 + lins.len() as u128;
            (np, total, cur_pr, cur_lin, url)
        };
        match key {
            KeyCode::Down => self.inbox_down(total),
            KeyCode::Up => self.cursor_up(),
            KeyCode::Char(c) => {
                if c == 'j' {
                    self.inbox_down(total);
                } else if c == 'k' {
                    self.cursor_up();
                } else if c == 'C' {
                    match (cur_pr, cur_lin) {
                        (Some(id), _) => self.spawn_todo_from_pr(id, true),
                        (None, Some(id)) => self.spawn_todo_from_linear(id, true),
                        _ => {},
                    }
                } else if c == 'd' {
                    if let Some(id) = cur_pr {
                        self.spawn_dismiss_pr(id);
                    }
                } else if c == 'D' {
                    self.show_closed = !self.show_closed;
                    self.cursor = 0;
                } else if c == 's' {
                    if self.cursor < np {
                        self.spawn_sync_github();
                    } else {
                        self.spawn_sync_linear();
                    }
                } else if c == 'o' {
                    if let Some(u) = url {
                        let mut msg: Vec<char> = Vec::new();
                        push_str(&mut msg, "opened ");
                        push_str(&mut msg, u.as_str());
                        proof {
                            reveal_strlit("opened ");
                        }
                        let text = string_of(msg.as_slice());
                        self.queue(crate::app::Action::OpenUrl { url: u });
                        self.set_toast(ToastKind::Success, text.as_str());
                    }
                } else if c == 'L' {
                    match (cur_pr, cur_lin) {
                        (Some(id), _) => {
                            self.mode = Mode::LinkTodo {
                                pr_id: Some(id),
                                linear_issue_id: None,
                                selection: 0,
                            };
                        },
                        (None, Some(id)) => {
                            self.mode = Mode::LinkTodo {
                                pr_id: None,
                                linear_issue_id: Some(id),
                                selection: 0,
                            };
                        },
                        _ => {},
                    }
                } else if c == '/' {
                    self.open_filter();
                }
            },
            _ => {},
        }
    }

    fn inbox_down(&mut self, total: u128)
        ensures
            final(self).cursor == (if old(self).cursor + 1 < total && old(self).cursor < usize::MAX {
                old(self).cursor + 1
            } else {
                old(self).cursor as int
            }),
            *final(self) == (App { cursor: final(self).cursor, ..*old(self) }),
    {
        if (self.cursor as u128) + 1 < total && self.cursor < usize::MAX {
            self.cursor = self.cursor + 1;
        }
    }

    /// Keys of the daily review while navigating.
    pub fn nav_review(&mut self, key: KeyCode)
        requires
            review_key_ok(*old(self), key),
        ensures
            review_post(*old(self), *final(self), key),
    {
        match key {
            KeyCode::Left => self.review_day(self.review_date - 1),
            KeyCode::Right => self.review_day(self.review_date + 1),
            KeyCode::Char(c) => {
                if c == 'h' {
                    self.review_day(self.review_date - 1);
                } else if c == 'l' {
                    self.review_day(self.review_date + 1);
                } else if c == 'g' {
                    let d = self.logical_date;
                    self.review_day(d);
                }
            },
            _ => {},
        }
    }

    fn review_day(&mut self, day: i32)
        ensures
            final(self).review_date == day,
            queued(
                old(self).pending@,
                final(self).pending@,
                ActionView::FetchReview { date: day_label(day as int) },
            ),
            *final(self) == (App {
                review_date: final(self).review_date,
                pending: final(self).pending,
                ..*old(self)
            }),
    {
        self.review_date = day;
        self.spawn_fetch_review();
    }

    /// Keys of the sync table while navigating.
    pub fn nav_sync(&mut self, key: KeyCode)
        ensures
            sync_post(*old(self), *final(self), key),
    {
        match key {
            KeyCode::Down => self.sync_down(),
            KeyCode::Up => self.cursor_up(),
            KeyCode::Char(c) => {
                if c == 'j' {
                    self.sync_down();
                } else if c == 'k' {
                    self.cursor_up();
                } else if c == 's' {
                    if self.cursor < self.data.sync.len() {
                        let source = owned(self.data.sync[self.cursor].source.as_str());
                        self.spawn_sync_source(source.as_str());
                    }
                } else if c == 'S' {
                    self.spawn_sync_all();
                }
            },
            _ => {},
        }
    }

    fn sync_down(&mut self)
        ensures
            cursor_moved(*old(self), *final(self), KeyCode::Down, old(self).data.sync@.len() as int),
    {
        let n = self.data.sync.len();
        if self.cursor < n && self.cursor + 1 < n {
            self.cursor = self.cursor + 1;
        }
    }
}

} // verus!
