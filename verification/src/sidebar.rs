//! The sidebar forms inside the client: taking the form out of the mode,
//! feeding it a key with what it needs to know of the data (the attach
//! picker's candidates, the attached links), and acting on its outcome.

use vstd::prelude::*;
use vstd::view::View as _;

use crate::app::{
    queued, should_plan_after_create_spec, toast_is, ActionView, App, LinkKind, Mode,
    SidebarField, ToastKind, View,
};
use crate::form::{form_key, form_key_outcome, form_wf, FormEffect, FormView, Outcome, SidebarForm};
use crate::gql::{LinearIssue, PullRequest, Todo, TodoLinearIssue, TodoPullRequest};
use crate::keys::KeyEvent;
use crate::pick::{linear_candidates, linear_picker_candidates, pr_candidates, pr_picker_candidates};
use crate::text::same_text;

verus! {

impl Mode {
    /// The form of a sidebar mode, as values.
    pub open spec fn form_view(self) -> FormView {
        match self {
            Mode::SidebarEdit {
                id,
                field,
                input_active,
                title_input,
                title_caret,
                desc_input,
                desc_caret,
                desc_scroll,
                tag_input,
                tag_caret,
                link_kind,
                link_selection,
                attaching,
                link_search,
                scroll,
            } => FormView {
                field,
                input_active,
                title: title_input@,
                title_caret: title_caret as int,
                desc: desc_input@,
                desc_caret: desc_caret as int,
                desc_scroll: desc_scroll as int,
                tag: tag_input@,
                tag_caret: tag_caret as int,
                link_kind,
                link_selection: link_selection as int,
                attaching,
                link_search: link_search@,
                scroll: scroll as int,
                pending: Seq::empty(),
            },
            Mode::SidebarAdd {
                field,
                input_active,
                title_input,
                title_caret,
                desc_input,
                desc_caret,
                desc_scroll,
                tag_input,
                tag_caret,
                link_kind,
                link_selection,
                attaching,
                link_search,
                scroll,
                pending_link_pr,
            } => FormView {
                field,
                input_active,
                title: title_input@,
                title_caret: title_caret as int,
                desc: desc_input@,
                desc_caret: desc_caret as int,
                desc_scroll: desc_scroll as int,
                tag: tag_input@,
                tag_caret: tag_caret as int,
                link_kind,
                link_selection: link_selection as int,
                attaching,
                link_search: link_search@,
                scroll: scroll as int,
                pending: pending_link_pr@,
            },
            _ => FormView {
                field: SidebarField::Title,
                input_active: false,
                title: Seq::empty(),
                title_caret: 0,
                desc: Seq::empty(),
                desc_caret: 0,
                desc_scroll: 0,
                tag: Seq::empty(),
                tag_caret: 0,
                link_kind: LinkKind::Pr,
                link_selection: 0,
                attaching: false,
                link_search: Seq::empty(),
                scroll: 0,
                pending: Seq::empty(),
            },
        }
    }

    /// A sidebar form mode.
    pub open spec fn is_sidebar(self) -> bool {
        self is SidebarEdit || self is SidebarAdd
    }

    /// `other` is the same kind of sidebar mode (for the same todo, when
    /// editing).
    pub open spec fn same_sidebar(self, other: Mode) -> bool {
        &&& self is SidebarEdit ==> (other is SidebarEdit && other->SidebarEdit_id
            == self->SidebarEdit_id)
        &&& self is SidebarAdd ==> other is SidebarAdd
    }
}

/// The ids of the attach picker's candidates for a form: pull requests or
/// Linear issues matching its search, in picker order.
pub open spec fn cand_ids(pulls: Seq<PullRequest>, linears: Seq<LinearIssue>, f: FormView) -> Seq<
    i32,
> {
    if f.link_kind == LinkKind::Pr {
        pr_candidates(pulls, f.link_search).map_values(|i: usize| pulls[i as int].id)
    } else {
        linear_candidates(linears, f.link_search).map_values(|i: usize| linears[i as int].id)
    }
}

/// The ids of the links attached to the edited todo, of the form's kind
/// (none while the detail is not loaded).
pub open spec fn link_ids(detail: Option<crate::app::DetailData>, f: FormView) -> Seq<i32> {
    match detail {
        Some(d) => if f.link_kind == LinkKind::Pr {
            d.prs@.map_values(|l: TodoPullRequest| l.pull_request_id)
        } else {
            d.linears@.map_values(|l: TodoLinearIssue| l.linear_issue_id)
        },
        None => Seq::empty(),
    }
}

/// True when `todos[i]` is the first todo with id `id`.
pub open spec fn first_with_id(todos: Seq<Todo>, i: int, id: i32) -> bool {
    0 <= i < todos.len() && todos[i].id == id && forall|j: int|
        0 <= j < i ==> #[trigger] todos[j].id != id
}

/// True when a todo carries the tag `slug`.
pub open spec fn carries_tag(t: Todo, slug: Seq<char>) -> bool {
    exists|k: int| 0 <= k < t.tag.nodes@.len() && #[trigger] t.tag.nodes@[k].slug@ == slug
}

/// True when the todo `id` (the first with that id) carries the tag `slug`.
pub open spec fn has_tag(todos: Seq<Todo>, id: i32, slug: Seq<char>) -> bool {
    exists|i: int| #[trigger] first_with_id(todos, i, id) && carries_tag(todos[i], slug)
}

fn tags_contain(tags: &Vec<crate::gql::Tag>, slug: &str) -> (r: bool)
    ensures
        r == exists|k: int| 0 <= k < tags@.len() && #[trigger] tags@[k].slug@ == slug@,
{
    let mut k: usize = 0;
    while k < tags.len()
        invariant
            k <= tags.len(),
            forall|j: int| 0 <= j < k ==> #[trigger] tags@[j].slug@ != slug@,
        decreases tags.len() - k,
    {
        if same_text(tags[k].slug.as_str(), slug) {
            return true;
        }
        k += 1;
    }
    false
}

/// A tag slug the todo already carries is removed on commit; any other is
/// added (also when the todo is unknown).
pub fn tag_commit_is_removal(app: &App, id: i32, slug: &str) -> (r: bool)
    ensures
        r == has_tag(app.data.todos@, id, slug@),
{
    let todos = &app.data.todos;
    let mut i: usize = 0;
    while i < todos.len()
        invariant
            i <= todos.len(),
            todos@ == app.data.todos@,
            forall|j: int| 0 <= j < i ==> #[trigger] todos@[j].id != id,
        decreases todos.len() - i,
    {
        if todos[i].id == id {
            let found = tags_contain(&todos[i].tag.nodes, slug);
            proof {
                assert(found == carries_tag(todos@[i as int], slug@));
                assert(first_with_id(todos@, i as int, id));
                assert forall|i2: int| #[trigger] first_with_id(todos@, i2, id) implies i2 == i by {
                    if i2 < i {
                    } else if i2 > i {
                        assert(todos@[i as int].id == id);
                    }
                }
                if found {
                    assert(first_with_id(todos@, i as int, id) && carries_tag(todos@[i as int], slug@));
                } else {
                    assert(!has_tag(todos@, id, slug@));
                }
            }
            return found;
        }
        i += 1;
    }
    proof {
        assert forall|i2: int| !(#[trigger] first_with_id(todos@, i2, id)) by {
            if 0 <= i2 < todos@.len() {
                assert(todos@[i2].id != id);
            }
        }
    }
    false
}

/// The operation an outcome queues, for the edited todo `id`.
pub open spec fn outcome_action(out: Outcome, id: i32, todos: Seq<Todo>) -> Option<ActionView> {
    match out {
        Outcome::SaveTitle(t) => Some(ActionView::UpdateTodo { id, title: Some(t), desc: None }),
        Outcome::SaveDesc(d) => Some(ActionView::UpdateTodo { id, title: None, desc: Some(d) }),
        Outcome::CommitTag(s) => Some(
            if has_tag(todos, id, s) {
                ActionView::RemoveTag { todo_id: id, slug: s }
            } else {
                ActionView::AddTag { todo_id: id, slug: s }
            },
        ),
        Outcome::LinkPr(p) => Some(ActionView::LinkPr { todo_id: id, pr_id: p }),
        Outcome::LinkLinear(l) => Some(ActionView::LinkLinear { todo_id: id, issue_id: l }),
        Outcome::UnlinkPr(p) => Some(ActionView::UnlinkPr { todo_id: id, pr_id: p }),
        Outcome::UnlinkLinear(l) => Some(ActionView::UnlinkLinear { todo_id: id, issue_id: l }),
        _ => None,
    }
}

/// What a key does in a sidebar form mode: the form steps by
/// [`form_key`] with the picker's candidates and the attached links of the
/// form's kind; Esc on an idle form closes it; committed fields are saved
/// (edit form) and the add form creates its todo, planned when it was
/// opened from Today, or complains of a blank title.
pub open spec fn sidebar_post(old: App, new: App, ev: KeyEvent) -> bool {
    let editing = old.mode is SidebarEdit;
    let f0 = old.mode.form_view();
    let cands = cand_ids(old.data.pulls@, old.data.linears@, f0);
    let links = link_ids(old.detail, f0);
    let f1 = form_key(f0, ev, editing, cands, links);
    let out = form_key_outcome(f0, ev, editing, cands, links);
    match out {
        Outcome::Exit => new == (App { mode: Mode::Navigate, toast: None, ..old }),
        Outcome::Create { title, desc } => {
            &&& new.mode == Mode::Navigate
            &&& queued(
                old.pending@,
                new.pending@,
                ActionView::SidebarAddCreate {
                    title,
                    desc,
                    pending_prs: f0.pending,
                    plan_after: should_plan_after_create_spec(old.view),
                },
            )
            &&& new == (App { mode: new.mode, pending: new.pending, ..old })
        },
        _ => {
            &&& old.mode.same_sidebar(new.mode)
            &&& new.mode.form_view() == f1
            &&& out is TitleRequired ==> toast_is(new.toast, ToastKind::Error, "a title is required"@)
                && new.pending == old.pending
            &&& out !is TitleRequired ==> new.toast == old.toast
            &&& out !is TitleRequired ==> match outcome_action(
                out,
                old.mode->SidebarEdit_id,
                old.data.todos@,
            ) {
                Some(a) => queued(old.pending@, new.pending@, a),
                None => new.pending == old.pending,
            }
            &&& new == (App { mode: new.mode, pending: new.pending, toast: new.toast, ..old })
        },
    }
}

fn take_form(m: Mode) -> (r: (i32, SidebarForm))
    requires
        m.is_sidebar(),
    ensures
        r.1.view() == m.form_view(),
        m is SidebarEdit ==> r.0 == m->SidebarEdit_id,
{
    match m {
        Mode::SidebarEdit {
            id,
            field,
            input_active,
            title_input,
            title_caret,
            desc_input,
            desc_caret,
            desc_scroll,
            tag_input,
            tag_caret,
            link_kind,
            link_selection,
            attaching,
            link_search,
            scroll,
        } => (
            id,
            SidebarForm {
                field,
                input_active,
                title_input,
                title_caret,
                desc_input,
                desc_caret,
                desc_scroll,
                tag_input,
                tag_caret,
                link_kind,
                link_selection,
                attaching,
                link_search,
                scroll,
                pending_link_pr: Vec::new(),
            },
        ),
        Mode::SidebarAdd {
            field,
            input_active,
            title_input,
            title_caret,
            desc_input,
            desc_caret,
            desc_scroll,
            tag_input,
            tag_caret,
            link_kind,
            link_selection,
            attaching,
            link_search,
            scroll,
            pending_link_pr,
        } => (
            0,
            SidebarForm {
                field,
                input_active,
                title_input,
                title_caret,
                desc_input,
                desc_caret,
                desc_scroll,
                tag_input,
                tag_caret,
                link_kind,
                link_selection,
                attaching,
                link_search,
                scroll,
                pending_link_pr,
            },
        ),
        _ => {
            proof {
                assert(false);
            }
            (0, SidebarForm {
                field: SidebarField::Title,
                input_active: false,
                title_input: String::new(),
                title_caret: 0,
                desc_input: String::new(),
                desc_caret: 0,
                desc_scroll: 0,
                tag_input: String::new(),
                tag_caret: 0,
                link_kind: LinkKind::Pr,
                link_selection: 0,
                attaching: false,
                link_search: String::new(),
                scroll: 0,
                pending_link_pr: Vec::new(),
            })
        },
    }
}

fn put_form(id: i32, f: SidebarForm, editing: bool) -> (m: Mode)
    requires
        editing ==> f.pending_link_pr@.len() == 0,
    ensures
        m.form_view() == f.view(),
        editing ==> m is SidebarEdit && m->SidebarEdit_id == id,
        !editing ==> m is SidebarAdd,
{
    if editing {
        assert(f.pending_link_pr@ =~= Seq::<i32>::empty());
        Mode::SidebarEdit {
            id,
            field: f.field,
            input_active: f.input_active,
            title_input: f.title_input,
            title_caret: f.title_caret,
            desc_input: f.desc_input,
            desc_caret: f.desc_caret,
            desc_scroll: f.desc_scroll,
            tag_input: f.tag_input,
            tag_caret: f.tag_caret,
            link_kind: f.link_kind,
            link_selection: f.link_selection,
            attaching: f.attaching,
            link_search: f.link_search,
            scroll: f.scroll,
        }
    } else {
        Mode::SidebarAdd {
            field: f.field,
            input_active: f.input_active,
            title_input: f.title_input,
            title_caret: f.title_caret,
            desc_input: f.desc_input,
            desc_caret: f.desc_caret,
            desc_scroll: f.desc_scroll,
            tag_input: f.tag_input,
            tag_caret: f.tag_caret,
            link_kind: f.link_kind,
            link_selection: f.link_selection,
            attaching: f.attaching,
            link_search: f.link_search,
            scroll: f.scroll,
            pending_link_pr: f.pending_link_pr,
        }
    }
}

impl App {
    fn candidate_ids(&self, form: &SidebarForm) -> (r: Vec<i32>)
        ensures
            r@ == cand_ids(self.data.pulls@, self.data.linears@, form.view()),
    {
        let mut ids: Vec<i32> = Vec::new();
        if form.link_kind == LinkKind::Pr {
            let c = pr_picker_candidates(self, form.link_search.as_str());
            let mut i: usize = 0;
            while i < c.len()
                invariant
                    i <= c.len(),
                    crate::pick::pr_candidates_ok(self.data.pulls@, form.link_search@, c@),
                    ids@ == c@.take(i as int).map_values(|k: usize| self.data.pulls@[k as int].id),
                decreases c.len() - i,
            {
                assert(c@.contains(c@[i as int]));
                ids.push(self.data.pulls[c[i]].id);
                assert(c@.take(i + 1) =~= c@.take(i as int).push(c@[i as int]));
                i += 1;
            }
            assert(c@.take(i as int) =~= c@);
        } else {
            let c = linear_picker_candidates(self, form.link_search.as_str());
            let mut i: usize = 0;
            while i < c.len()
                invariant
                    i <= c.len(),
                    crate::pick::linear_candidates_ok(self.data.linears@, form.link_search@, c@),
                    ids@ == c@.take(i as int).map_values(|k: usize| self.data.linears@[k as int].id),
                decreases c.len() - i,
            {
                assert(c@.contains(c@[i as int]));
                ids.push(self.data.linears[c[i]].id);
                assert(c@.take(i + 1) =~= c@.take(i as int).push(c@[i as int]));
                i += 1;
            }
            assert(c@.take(i as int) =~= c@);
        }
        ids
    }

    fn attached_ids(&self, form: &SidebarForm) -> (r: Vec<i32>)
        ensures
            r@ == link_ids(self.detail, form.view()),
    {
        let mut ids: Vec<i32> = Vec::new();
        match &self.detail {
            Some(d) => {
                if form.link_kind == LinkKind::Pr {
                    let mut i: usize = 0;
                    while i < d.prs.len()
                        invariant
                            i <= d.prs.len(),
                            ids@ == d.prs@.take(i as int).map_values(
                                |l: TodoPullRequest| l.pull_request_id,
                            ),
                        decreases d.prs.len() - i,
                    {
                        ids.push(d.prs[i].pull_request_id);
                        assert(d.prs@.take(i + 1) =~= d.prs@.take(i as int).push(d.prs@[i as int]));
                        i += 1;
                    }
                    assert(d.prs@.take(i as int) =~= d.prs@);
                } else {
                    let mut i: usize = 0;
                    while i < d.linears.len()
                        invariant
                            i <= d.linears.len(),
                            ids@ == d.linears@.take(i as int).map_values(
                                |l: TodoLinearIssue| l.linear_issue_id,
                            ),
                        decreases d.linears.len() - i,
                    {
                        ids.push(d.linears[i].linear_issue_id);
                        assert(d.linears@.take(i + 1) =~= d.linears@.take(i as int).push(
                            d.linears@[i as int],
                        ));
                        i += 1;
                    }
                    assert(d.linears@.take(i as int) =~= d.linears@);
                }
            },
            None => {},
        }
        ids
    }

    /// Handles a key in the sidebar edit or add form.
    pub fn key_sidebar(&mut self, ev: KeyEvent)
        requires
            old(self).mode.is_sidebar(),
            form_wf(old(self).mode.form_view()),
        ensures
            sidebar_post(*old(self), *final(self), ev),
            final(self).mode.is_sidebar() ==> form_wf(final(self).mode.form_view()),
    {
        let editing = match &self.mode {
            Mode::SidebarEdit { .. } => true,
            _ => false,
        };
        let mut m = Mode::Navigate;
        std::mem::swap(&mut m, &mut self.mode);
        let (id, mut form) = take_form(m);
        let cands = self.candidate_ids(&form);
        let links = self.attached_ids(&form);
        let eff = form.key(ev, editing, &cands, &links);
        match eff {
            FormEffect::Exit => {
                self.toast = None;
            },
            FormEffect::Create { title, desc } => {
                let plan_after = crate::app::should_plan_after_create(self.view);
                self.spawn_sidebar_add_create(
                    title.as_str(),
                    desc.as_str(),
                    form.pending_link_pr.as_slice(),
                    plan_after,
                );
            },
            FormEffect::TitleRequired => {
                self.mode = put_form(id, form, editing);
                self.set_error("a title is required");
            },
            FormEffect::Stay => {
                self.mode = put_form(id, form, editing);
            },
            FormEffect::SaveTitle(t) => {
                self.mode = put_form(id, form, editing);
                self.spawn_update_todo(id, Some(t.as_str()), None);
            },
            FormEffect::SaveDesc(d) => {
                self.mode = put_form(id, form, editing);
                self.spawn_update_todo(id, None, Some(d.as_str()));
            },
            FormEffect::CommitTag(slug) => {
                self.mode = put_form(id, form, editing);
                if tag_commit_is_removal(self, id, slug.as_str()) {
                    self.spawn_remove_tag(id, slug.as_str());
                } else {
                    self.spawn_add_tag(id, slug.as_str());
                }
            },
            FormEffect::LinkPr(p) => {
                self.mode = put_form(id, form, editing);
                self.spawn_link_pr(id, p);
            },
            FormEffect::LinkLinear(l) => {
                self.mode = put_form(id, form, editing);
                self.spawn_link_linear(id, l);
            },
            FormEffect::UnlinkPr(p) => {
                self.mode = put_form(id, form, editing);
                self.spawn_unlink_pr(id, p);
            },
            FormEffect::UnlinkLinear(l) => {
                self.mode = put_form(id, form, editing);
                self.spawn_unlink_linear(id, l);
            },
        }
    }
}

} // verus!
