//! What holds of the table screen whatever is asked of it.

use crate::app::{first_named, is_first_named, lemma_first_named_found, DbModel};
use crate::ui::input::{ActionModel, Direction, Intent};
use crate::ui::table_model::{FetchedModel, TableViewModel};
use crate::ui::tabs::SelectedTableTab;
use vstd::prelude::*;

verus! {

/// One call for another page: its direction, and the outcome that is
/// delivered if the call asks for a read (`None` for a read that failed).
pub struct PagingCall {
    pub forward: bool,
    pub outcome: Option<FetchedModel>,
}

impl PagingCall {
    /// The intent that the call stands for.
    pub open spec fn intent(self) -> Intent {
        if self.forward {
            Intent::NextPage
        } else {
            Intent::PrevPage
        }
    }
}

impl TableViewModel {
    /// The screen after an intent was handled and, where that asked for a
    /// read, the outcome of the read was delivered.
    pub open spec fn served(
        self,
        intent: Intent,
        db: DbModel,
        outcome: Option<FetchedModel>,
    ) -> TableViewModel {
        let asked = self.handled(intent, db);
        if asked.pending is Some {
            asked.delivered(outcome)
        } else {
            asked
        }
    }

    /// The screen after a run of calls for another page, each served in
    /// turn.
    pub open spec fn paged_through(self, calls: Seq<PagingCall>, db: DbModel) -> TableViewModel
        decreases calls.len(),
    {
        if calls.len() == 0 {
            self
        } else {
            self.paged_through(calls.drop_last(), db).served(
                calls.last().intent(),
                db,
                calls.last().outcome,
            )
        }
    }

    /// The row count is known and the page starts at one of the rows.
    pub open spec fn offset_within_rows(self) -> bool {
        self.total matches Some(total) && 0 <= self.offset < total
    }

    /// Whether the read of a call, if the call asks for one and it
    /// succeeds, finds a row at the offset it was made for.
    pub open spec fn finds_rows(self, call: PagingCall, db: DbModel) -> bool {
        let asked = self.handled(call.intent(), db);
        asked.pending matches Some(d) ==> (call.outcome matches Some(fetched) ==> d.offset
            < fetched.total)
    }

    /// Whether every read in a run of calls finds a row at the offset it
    /// was made for.
    pub open spec fn all_find_rows(self, calls: Seq<PagingCall>, db: DbModel) -> bool
        decreases calls.len(),
    {
        calls.len() == 0 || (self.all_find_rows(calls.drop_last(), db) && self.paged_through(
            calls.drop_last(),
            db,
        ).finds_rows(calls.last(), db))
    }

    /// Serving an intent keeps the screen well formed.
    pub proof fn lemma_served_wf(self, intent: Intent, db: DbModel, outcome: Option<FetchedModel>)
        requires
            self.wf(),
            outcome matches Some(fetched) ==> fetched.wf(),
        ensures
            self.served(intent, db, outcome).wf(),
    {
        self.lemma_handled_wf(intent, db);
        self.handled(intent, db).lemma_delivered_wf(outcome);
    }

    /// Through any run of calls for the next or the previous page, whatever
    /// the reads bring, the offset stays a whole number of pages.
    pub proof fn lemma_paging_keeps_offset_aligned(self, calls: Seq<PagingCall>, db: DbModel)
        requires
            self.wf(),
            forall|i: int|
                0 <= i < calls.len() ==> ((#[trigger] calls[i]).outcome matches Some(fetched)
                    ==> fetched.wf()),
        ensures
            self.paged_through(calls, db).wf(),
            self.paged_through(calls, db).offset % self.paged_through(calls, db).page_size == 0,
            self.paged_through(calls, db).offset >= 0,
            self.paged_through(calls, db).page_size == self.page_size,
        decreases calls.len(),
    {
        if calls.len() > 0 {
            self.lemma_paging_keeps_offset_aligned(calls.drop_last(), db);
            let before = self.paged_through(calls.drop_last(), db);
            before.lemma_served_wf(calls.last().intent(), db, calls.last().outcome);
        }
    }

    /// Through any run of calls for the next or the previous page, the page
    /// starts at one of the rows of the relation: the offset is at least
    /// zero and below the row count.
    ///
    /// This is said of a screen that starts out so, and of reads that
    /// find a row at the offset they were made for. A relation that lost
    /// its rows between two reads has no row for the page to start at.
    pub proof fn lemma_paging_keeps_offset_within_rows(
        self,
        calls: Seq<PagingCall>,
        db: DbModel,
    )
        requires
            self.wf(),
            self.offset_within_rows(),
            forall|i: int|
                0 <= i < calls.len() ==> ((#[trigger] calls[i]).outcome matches Some(fetched)
                    ==> fetched.wf()),
            self.all_find_rows(calls, db),
        ensures
            self.paged_through(calls, db).wf(),
            self.paged_through(calls, db).offset_within_rows(),
        decreases calls.len(),
    {
        if calls.len() > 0 {
            self.lemma_paging_keeps_offset_within_rows(calls.drop_last(), db);
            let before = self.paged_through(calls.drop_last(), db);
            before.lemma_served_wf(calls.last().intent(), db, calls.last().outcome);
        }
    }

    /// Going from the rows to the defining text and back changes neither
    /// the offset nor the cursor nor the page on screen.
    ///
    /// Coming back reads the page again. This is said of a read that
    /// fails, and of one that brings the page that was on screen; a
    /// database that changed in between brings another page.
    pub proof fn lemma_schema_and_back(
        self,
        db: DbModel,
        there: Direction,
        back: Direction,
        outcome: Option<FetchedModel>,
    )
        requires
            self.wf(),
            self.body == SelectedTableTab::Browse,
            outcome matches Some(fetched) ==> fetched.wf() && self.page == Some(fetched.page),
        ensures
            ({
                let schema = self.handled(Intent::SwitchBodyMode(there), db);
                let browse = schema.served(Intent::SwitchBodyMode(back), db, outcome);
                &&& schema.body == SelectedTableTab::Schema
                &&& schema.pending is None
                &&& schema.offset == self.offset
                &&& schema.cursor == self.cursor
                &&& schema.page == self.page
                &&& browse.offset == self.offset
                &&& browse.cursor == self.cursor
                &&& browse.page == self.page
                &&& (browse.body == SelectedTableTab::Browse || outcome is None)
            }),
    {
        let schema = self.handled(Intent::SwitchBodyMode(there), db);
        self.lemma_handled_wf(Intent::SwitchBodyMode(there), db);
        self.cursor.lemma_clamped(self.rows(), self.columns());
    }

    /// Whenever the page on screen has cells, the cursor is on one of
    /// them.
    pub proof fn lemma_cursor_on_page(self)
        requires
            self.wf(),
            self.rows() > 0,
            self.columns() > 0,
        ensures
            0 <= self.cursor.row < self.rows(),
            0 <= self.cursor.column < self.columns(),
    {
        self.cursor.lemma_within_bounds(self.rows(), self.columns());
    }

    /// Right after a page was put on screen, the cursor is on one of its
    /// cells, if it has any.
    pub proof fn lemma_cursor_on_delivered_page(self, fetched: FetchedModel)
        requires
            self.wf(),
            self.pending is Some,
            fetched.wf(),
            fetched.page.rows.len() > 0,
            fetched.page.columns.len() > 0,
        ensures
            self.delivered(Some(fetched)).page == Some(fetched.page),
            0 <= self.delivered(Some(fetched)).cursor.row < fetched.page.rows.len(),
            0 <= self.delivered(Some(fetched)).cursor.column < fetched.page.columns.len(),
    {
        self.lemma_delivered_wf(Some(fetched));
        self.delivered(Some(fetched)).lemma_cursor_on_page();
    }

    /// The screen asks for a read exactly when it is left waiting for one.
    pub proof fn lemma_read_asked_iff_waiting(self, intent: Intent, db: DbModel)
        ensures
            self.action(intent, db) is Fetch <==> self.handled(intent, db).pending is Some,
    {
    }

    /// Every read that the screen asks for is for a page of the size of
    /// its pages, and starts at a whole number of pages.
    pub proof fn lemma_reads_are_aligned(self, intent: Intent, db: DbModel)
        requires
            self.wf(),
        ensures
            self.action(intent, db) matches ActionModel::Fetch(request) ==> {
                &&& request.page_size == self.page_size
                &&& request.page_size > 0
                &&& request.offset % request.page_size == 0
                &&& self.handled(intent, db).pending matches Some(d) && d.offset == request.offset
            },
    {
        self.settled().lemma_destination_admitted(intent);
    }

    /// Every read that the screen asks for is for a relation of the list
    /// that it is about to show; in a well formed catalog that is a
    /// relation of the kind of the list.
    pub proof fn lemma_reads_name_listed_relations(self, intent: Intent, db: DbModel)
        ensures
            self.action(intent, db) matches ActionModel::Fetch(request) ==> {
                &&& self.handled(intent, db).pending matches Some(d)
                &&& db.relations(d.nav).contains(request.relation)
                &&& self.list(d.nav).items.contains(request.relation.name)
                &&& (db.wf() ==> request.relation.kind == d.nav.kind())
            },
    {
        let s = self.settled();
        match s.destination(intent) {
            Some(d) => {
                match s.request(d, db) {
                    Some(request) => {
                        let there = s.arrived(d);
                        let name = there.active().selected_item()->0;
                        let i = first_named(db.relations(d.nav), name)->0;
                        assert(is_first_named(db.relations(d.nav), name, i));
                        assert(db.relations(d.nav)[i] == request.relation);
                        assert(there.active().items[there.active().selected->0] == name);
                    },
                    None => {},
                }
            },
            None => {},
        }
    }

    /// Whether the screen lists the relations of `db`, name by name.
    pub open spec fn lists(self, db: DbModel) -> bool {
        &&& self.tables.items == Self::names(db.tables)
        &&& self.views.items == Self::names(db.views)
    }

    /// A screen lists the relations of the database that it was opened
    /// with, and goes on doing so whatever is asked of it and whatever is
    /// delivered to it.
    pub proof fn lemma_lists_stay(
        self,
        db: DbModel,
        other: DbModel,
        intent: Intent,
        outcome: Option<FetchedModel>,
    )
        ensures
            self.opened(db).lists(db),
            self.lists(db) ==> self.handled(intent, other).lists(db),
            self.lists(db) ==> self.delivered(outcome).lists(db),
    {
    }

    /// On a screen that lists the relations of `db`, the selected relation
    /// is the one at the selected position of the list on screen, as long
    /// as no two relations of that list share a name.
    pub proof fn lemma_selected_relation_by_position(self, db: DbModel)
        requires
            self.wf(),
            self.lists(db),
            forall|i: int, j: int|
                0 <= i < j < db.relations(self.nav).len() ==> (#[trigger] db.relations(
                    self.nav,
                )[i]).name != (#[trigger] db.relations(self.nav)[j]).name,
        ensures
            self.selected_relation(db) == match self.active().selected {
                Some(i) => Some(db.relations(self.nav)[i]),
                None => None,
            },
    {
        match self.active().selected {
            Some(i) => {
                let relations = db.relations(self.nav);
                let name = self.active().items[i];
                assert(Self::names(relations)[i] == relations[i].name);
                assert(is_first_named(relations, name, i));
                lemma_first_named_found(relations, name, i);
            },
            None => {},
        }
    }

    /// An input whose read fails leaves everything on screen as it was.
    pub proof fn lemma_failed_read_changes_nothing(self, intent: Intent, db: DbModel)
        requires
            self.handled(intent, db).pending is Some,
        ensures
            self.served(intent, db, None) == self.settled(),
            self.served(intent, db, None).page == self.page,
            self.served(intent, db, None).total == self.total,
            self.served(intent, db, None).offset == self.offset,
            self.served(intent, db, None).cursor == self.cursor,
    {
    }

    /// Handling an input never touches the page on screen or the row
    /// count, and while a read is awaited it touches nothing that is on
    /// screen: only a delivered page changes what is shown.
    pub proof fn lemma_inputs_leave_the_page(self, intent: Intent, db: DbModel)
        ensures
            self.handled(intent, db).page == self.page,
            self.handled(intent, db).total == self.total,
            self.handled(intent, db).pending is Some ==> self.handled(intent, db) == (
            TableViewModel { pending: self.handled(intent, db).pending, ..self }),
    {
    }

    /// A page that is delivered replaces page and row count together and
    /// puts the offset where the input led.
    pub proof fn lemma_delivery_is_whole(self, fetched: FetchedModel)
        requires
            self.pending is Some,
        ensures
            self.delivered(Some(fetched)).page == Some(fetched.page),
            self.delivered(Some(fetched)).total == Some(fetched.total),
            self.delivered(Some(fetched)).offset == self.pending->0.offset,
            self.delivered(Some(fetched)).pending is None,
    {
    }
}

} // verus!
