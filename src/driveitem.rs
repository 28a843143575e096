//! Drive items and the lazy, link-following cursor over a paged listing.
use std::collections::HashMap;
use vstd::prelude::*;

verus! {

/// A JSON value of the service's responses, carried as it came.
#[verifier::external_type_specification]
#[verifier::external_body]
pub struct ExJsonValue(serde_json::Value);

/// A single file or folder of a drive: its name, and every other attribute
/// that the service sent, by name.
#[derive(Debug, Clone)]
pub struct DriveItem {
    pub name: String,
    pub extras: HashMap<String, serde_json::Value>,
}

/// What the cursor has for its caller.
#[derive(Debug)]
pub enum ListStep {
    /// The next item, in the order the service listed it.
    Item(DriveItem),
    /// The current page is used up: fetch the page at this URL and hand it
    /// over with `receive_page`.
    Fetch(String),
    /// There are no more items.
    End,
}

/// A listing that is read one page at a time. Items come out in the order of
/// each page, and pages in the order of their `next` links; a page is fetched
/// only once the one before it is used up, and never twice.
pub struct DriveItemList {
    data: Vec<DriveItem>,
    next_url: Option<String>,
    delta_url: Option<String>,
    awaiting: bool,
    handed_out: Ghost<Seq<DriveItem>>,
    received: Ghost<Seq<DriveItem>>,
}

impl DriveItemList {
    /// The items of the current page that are still to come.
    pub closed spec fn pending(&self) -> Seq<DriveItem> {
        self.data@
    }

    /// The link to the page after the current one, if it is still to fetch.
    pub closed spec fn spec_next_url(&self) -> Option<String> {
        self.next_url
    }

    /// The cursor for changes after this listing, as the last page gave it.
    pub closed spec fn spec_delta_url(&self) -> Option<String> {
        self.delta_url
    }

    /// Whether a fetched page is due from the caller.
    pub closed spec fn is_awaiting(&self) -> bool {
        self.awaiting
    }

    /// Every item that `next` has handed out, in order.
    pub closed spec fn spec_handed_out(&self) -> Seq<DriveItem> {
        self.handed_out@
    }

    /// Every item of every page taken in so far, page after page.
    pub closed spec fn spec_received(&self) -> Seq<DriveItem> {
        self.received@
    }

    pub closed spec fn wf(&self) -> bool {
        &&& self.awaiting ==> self.data@.len() == 0 && self.next_url is None
        &&& self.handed_out@ + self.data@ == self.received@
    }

    /// A listing whose first page holds `data` and the links that came with it.
    pub fn new(data: Vec<DriveItem>, next_url: Option<String>, delta_url: Option<String>) -> (r:
        Self)
        ensures
            r.wf(),
            r.pending() == data@,
            r.spec_next_url() == next_url,
            r.spec_delta_url() == delta_url,
            !r.is_awaiting(),
            r.spec_handed_out() == Seq::<DriveItem>::empty(),
            r.spec_received() == data@,
    {
        let ghost first = data@;
        assert(Seq::<DriveItem>::empty() + first =~= first);
        DriveItemList {
            data,
            next_url,
            delta_url,
            awaiting: false,
            handed_out: Ghost(Seq::empty()),
            received: Ghost(first),
        }
    }

    /// The link to the page after the current one, if it is still to fetch.
    pub fn next_url(&self) -> (r: &Option<String>)
        ensures
            *r == self.spec_next_url(),
    {
        &self.next_url
    }

    /// The cursor for later change queries, surfaced and never followed.
    pub fn delta_url(&self) -> (r: &Option<String>)
        ensures
            *r == self.spec_delta_url(),
    {
        &self.delta_url
    }

    /// Whether a fetched page is due from the caller.
    pub fn awaiting_page(&self) -> (r: bool)
        ensures
            r == self.is_awaiting(),
    {
        self.awaiting
    }

    /// The next item of the current page; once the page is used up, the link
    /// of the next page to fetch; once no link is left, the end.
    pub fn next(&mut self) -> (r: ListStep)
        requires
            old(self).wf(),
            !old(self).is_awaiting(),
        ensures
            final(self).wf(),
            final(self).spec_delta_url() == old(self).spec_delta_url(),
            final(self).spec_received() == old(self).spec_received(),
            old(self).pending().len() > 0 ==> {
                &&& r == ListStep::Item(old(self).pending()[0])
                &&& final(self).spec_handed_out() == old(self).spec_handed_out().push(
                    old(self).pending()[0],
                )
                &&& final(self).pending() == old(self).pending().drop_first()
                &&& final(self).spec_next_url() == old(self).spec_next_url()
                &&& !final(self).is_awaiting()
            },
            old(self).pending().len() == 0 && old(self).spec_next_url() is Some ==> {
                &&& r == ListStep::Fetch(old(self).spec_next_url()->Some_0)
                &&& final(self).pending().len() == 0
                &&& final(self).spec_next_url() is None
                &&& final(self).is_awaiting()
            },
            old(self).pending().len() == 0 && old(self).spec_next_url() is None ==> {
                &&& r == ListStep::End
                &&& *final(self) == *old(self)
                &&& final(self).spec_handed_out() == final(self).spec_received()
            },
            !(r is Item) ==> final(self).spec_handed_out() == old(self).spec_handed_out(),
    {
        if self.data.len() > 0 {
            let ghost before = self.data@;
            let item = self.data.remove(0);
            assert(self.data@ =~= before.drop_first());
            proof {
                self.handed_out@ = self.handed_out@.push(item);
                assert(self.handed_out@ + self.data@ =~= old(self).handed_out@ + before);
            }
            ListStep::Item(item)
        } else {
            match self.next_url.take() {
                Some(url) => {
                    self.awaiting = true;
                    ListStep::Fetch(url)
                },
                None => {
                    assert(self.data@ =~= Seq::<DriveItem>::empty());
                    assert(self.handed_out@ + self.data@ =~= self.handed_out@);
                    ListStep::End
                },
            }
        }
    }

    /// Takes over the page fetched from the link that `next` handed out: its
    /// items come next, and its links replace the old ones.
    pub fn receive_page(&mut self, page: DriveItemList)
        requires
            old(self).wf(),
            old(self).is_awaiting(),
            page.wf(),
            !page.is_awaiting(),
        ensures
            final(self).wf(),
            !final(self).is_awaiting(),
            final(self).pending() == page.pending(),
            final(self).spec_next_url() == page.spec_next_url(),
            final(self).spec_delta_url() == page.spec_delta_url(),
            final(self).spec_handed_out() == old(self).spec_handed_out(),
            final(self).spec_received() == old(self).spec_received() + page.pending(),
    {
        proof {
            assert(self.handed_out@ + self.data@ =~= self.handed_out@);
            self.received@ = self.received@ + page.data@;
            assert(self.handed_out@ + page.data@ =~= self.received@);
        }
        self.data = page.data;
        self.next_url = page.next_url;
        self.delta_url = page.delta_url;
        self.awaiting = false;
    }

}

} // verus!
