//! Messages the event loop hands the client when backend work completes,
//! and how the client's state takes them in.

use vstd::prelude::*;
use vstd::view::View as _;

use crate::app::{first_active, queued, toast_is, ActionView, App, AppData, DetailData, ToastKind};
use crate::gql::{DailyReview, FetchAll, TodoEvent, TodoLinearIssue, TodoPullRequest};
use crate::text::same_text;
use crate::views::{cursor_todo, sidebar_todo};

verus! {

/// What completed backend work reports. Results carry the generation of
/// the state they were requested for; a result for an older generation is
/// dropped.
pub enum AppMsg {
    FetchAll { generation: u64, data: FetchAll },
    DailyReview { generation: u64, review: DailyReview },
    DetailData {
        generation: u64,
        id: i32,
        events: Vec<TodoEvent>,
        prs: Vec<TodoPullRequest>,
        linears: Vec<TodoLinearIssue>,
    },
    Toast(ToastKind, String),
    Refresh,
    SyncStarted { source: String },
    SyncDone { source: String, success: bool },
}

/// True when `source` has a sync in flight.
pub open spec fn is_syncing(syncing: Seq<String>, source: Seq<char>) -> bool {
    exists|i: int| 0 <= i < syncing.len() && #[trigger] syncing[i]@ == source
}

/// The first position of `source` among the syncs in flight.
pub open spec fn first_source(syncing: Seq<String>, source: Seq<char>) -> Option<int> {
    if is_syncing(syncing, source) {
        Some(
            choose|i: int|
                0 <= i < syncing.len() && #[trigger] syncing[i]@ == source && forall|j: int|
                    0 <= j < i ==> #[trigger] syncing[j]@ != source,
        )
    } else {
        None
    }
}

pub(crate) fn find_source(syncing: &Vec<String>, source: &str) -> (r: Option<usize>)
    ensures
        match r {
            Some(i) => i < syncing@.len() && syncing@[i as int]@ == source@ && first_source(
                syncing@,
                source@,
            ) == Some(i as int),
            None => !is_syncing(syncing@, source@) && first_source(syncing@, source@) is None,
        },
{
    let mut i: usize = 0;
    while i < syncing.len()
        invariant
            i <= syncing.len(),
            forall|j: int| 0 <= j < i ==> #[trigger] syncing@[j]@ != source@,
        decreases syncing.len() - i,
    {
        if same_text(syncing[i].as_str(), source) {
            proof {
                let w = choose|k: int|
                    0 <= k < syncing@.len() && #[trigger] syncing@[k]@ == source@ && forall|j: int|
                        0 <= j < k ==> #[trigger] syncing@[j]@ != source@;
                assert(0 <= i < syncing@.len() && syncing@[i as int]@ == source@ && forall|j: int|
                    0 <= j < i ==> #[trigger] syncing@[j]@ != source@);
                if w < i {
                    assert(syncing@[w]@ != source@);
                } else if w > i {
                    assert(syncing@[i as int]@ != source@);
                }
            }
            return Some(i);
        }
        i += 1;
    }
    None
}

/// The sidebar's todo has its detail asked for, unless it is loaded
/// already: the fetch is queued and the old detail dropped.
pub open spec fn detail_asked(old: App, new: App) -> bool {
    match cursor_todo(old) {
        Some(t) => if old.detail_loaded_id == Some(t.id) {
            new == old
        } else {
            &&& queued(old.pending@, new.pending@, ActionView::FetchDetail { id: t.id })
            &&& new.detail_loaded_id == Some(t.id)
            &&& new.detail is None
            &&& new == (App {
                pending: new.pending,
                detail_loaded_id: new.detail_loaded_id,
                detail: new.detail,
                ..old
            })
        },
        None => new == old,
    }
}

/// Fresh data replaces the cache; the cursor goes to the first active row
/// while unset, and the sidebar's todo has its detail loaded.
pub open spec fn fetched(old: App, new: App, data: FetchAll) -> bool {
    &&& new.data.todos == data.todo
    &&& new.data.plan == data.plan
    &&& new.data.pulls == data.pulls
    &&& new.data.linears == data.linears
    &&& new.data.sync == data.sync
    &&& new.cursor == (if old.cursor == 0 && (old.view == crate::app::View::Today || old.view
        == crate::app::View::Backlog) {
        first_active(App { data: new.data, ..old }.list_rows())
    } else {
        old.cursor as int
    })
    &&& detail_asked(App { data: new.data, cursor: new.cursor, ..old }, new)
}

impl App {
    /// After new data: the sidebar's todo is the cursor's row; its detail
    /// is loaded unless it already is.
    pub fn maybe_fetch_cursor_detail(&mut self)
        ensures
            detail_asked(*old(self), *final(self)),
    {
        let id = match sidebar_todo(self) {
            Some(t) => Some(t.id),
            None => None,
        };
        if let Some(id) = id {
            if self.detail_loaded_id != Some(id) {
                self.spawn_fetch_detail(id);
            }
        }
    }

    pub(crate) fn take_fetch(&mut self, generation: u64, data: FetchAll)
        ensures
            generation == old(self).generation ==> fetched(*old(self), *final(self), data),
            generation != old(self).generation ==> *final(self) == *old(self),
    {
        if generation == self.generation {
            self.data = AppData::from_fetch_all(data);
            self.clamp_cursor_to_active();
            self.maybe_fetch_cursor_detail();
        }
    }

    /// Takes in a message from completed backend work. Fresh data replaces
    /// the cache (and the cursor goes to the first active row while unset);
    /// a review or a detail is kept when it answers the current request;
    /// toasts are shown; a sync in flight is tracked until it is done, and
    /// a successful one refreshes the data.
    pub fn handle_msg(&mut self, msg: AppMsg)
        ensures
            crate::input::app_wf(*old(self)) ==> crate::input::app_wf(*final(self)),
            match msg {
                AppMsg::FetchAll { generation, data } => if generation == old(self).generation {
                    fetched(*old(self), *final(self), data)
                } else {
                    *final(self) == *old(self)
                },
                AppMsg::DailyReview { generation, review } => if generation == old(self).generation {
                    *final(self) == (App { review: Some(review), ..*old(self) })
                } else {
                    *final(self) == *old(self)
                },
                AppMsg::DetailData { generation, id, events, prs, linears } => if generation
                    == old(self).generation && old(self).detail_loaded_id == Some(id) {
                    final(self).detail matches Some(d) && d.events == events && d.prs == prs && d.linears
                        == linears && d.tags@.len() == 0 && *final(self) == (App { detail: final(self).detail, ..*old(self) })
                } else {
                    *final(self) == *old(self)
                },
                AppMsg::Toast(kind, text) => toast_is(final(self).toast, kind, text@) && *final(self) == (App {
                    toast: final(self).toast,
                    ..*old(self)
                }),
                AppMsg::Refresh => queued(old(self).pending@, final(self).pending@, ActionView::Refresh) && *final(self) == (App {
                    pending: final(self).pending,
                    ..*old(self)
                }),
                AppMsg::SyncStarted { source } => {
                    &&& is_syncing(final(self).syncing@, source@)
                    &&& is_syncing(old(self).syncing@, source@) ==> *final(self) == *old(self)
                    &&& !is_syncing(old(self).syncing@, source@) ==> final(self).syncing@ == old(self).syncing@.push(source)
                        && *final(self) == (App { syncing: final(self).syncing, ..*old(self) })
                },
                AppMsg::SyncDone { source, success } => {
                    &&& match first_source(old(self).syncing@, source@) {
                        Some(i) => final(self).syncing@ == old(self).syncing@.remove(i),
                        None => final(self).syncing == old(self).syncing,
                    }
                    &&& success ==> queued(old(self).pending@, final(self).pending@, ActionView::Refresh)
                    &&& !success ==> final(self).pending == old(self).pending
                    &&& *final(self) == (App {
                        syncing: final(self).syncing,
                        pending: final(self).pending,
                        ..*old(self)
                    })
                },
            },
    {
        match msg {
            AppMsg::FetchAll { generation, data } => {
                self.take_fetch(generation, data);
            },
            AppMsg::DailyReview { generation, review } => {
                if generation == self.generation {
                    self.review = Some(review);
                }
            },
            AppMsg::DetailData { generation, id, events, prs, linears } => {
                if generation == self.generation && self.detail_loaded_id == Some(id) {
                    self.detail = Some(DetailData { tags: Vec::new(), events, prs, linears });
                }
            },
            AppMsg::Toast(kind, text) => {
                self.set_toast(kind, text.as_str());
            },
            AppMsg::Refresh => {
                self.spawn_refresh();
            },
            AppMsg::SyncStarted { source } => {
                let found = find_source(&self.syncing, source.as_str());
                if found.is_none() {
                    let ghost before = self.syncing@;
                    let ghost sv = source@;
                    self.syncing.push(source);
                    assert(self.syncing@[before.len() as int]@ == sv);
                }
            },
            AppMsg::SyncDone { source, success } => {
                match find_source(&self.syncing, source.as_str()) {
                    Some(i) => {
                        self.syncing.remove(i);
                    },
                    None => {},
                }
                if success {
                    self.spawn_refresh();
                }
            },
        }
    }
}

} // verus!
