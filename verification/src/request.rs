//! What the interface keeps for its one request: the address, how cookies
//! are shown, and the request's lifecycle.

use crate::cookies::CookieDisplayMode;
use crate::response::{FetchError, ResponseData};
use crate::slot::DataState;
use reqwest_cross::oneshot::Receiver;
use vstd::prelude::*;
use vstd::string::StringExecFns;

verus! {

/// The address that a new slot starts with.
pub open spec fn initial_url() -> Seq<char> {
    "https://github.com/c-git/reqwest_w_egui_testing/blob/main/README.md"@
}

/// The one place where the interface holds a request. A new submit replaces
/// whatever was there: no history is kept.
pub struct RequestSlot {
    pub url: String,
    pub cookie_display_mode: CookieDisplayMode,
    /// Nothing while no address was submitted; after a submit, the lifecycle
    /// of the request for it.
    pub resp_data: Option<DataState<ResponseData>>,
}

impl Default for RequestSlot {
    fn default() -> (slot: Self)
        ensures
            slot.url@ == initial_url(),
            slot.cookie_display_mode == CookieDisplayMode::NameValue,
            slot.resp_data.is_none(),
    {
        RequestSlot {
            url: String::from_str(
                "https://github.com/c-git/reqwest_w_egui_testing/blob/main/README.md",
            ),
            cookie_display_mode: CookieDisplayMode::NameValue,
            resp_data: None,
        }
    }
}

impl RequestSlot {
    /// Asks for the current address to be fetched. Whatever the slot held, an
    /// outcome or a request in flight, is let go: the next frame starts anew.
    pub fn trigger_fetch(&mut self)
        ensures
            final(self).resp_data == Some(DataState::<ResponseData>::Idle),
            final(self).url == old(self).url,
            final(self).cookie_display_mode == old(self).cookie_display_mode,
    {
        self.resp_data = Some(DataState::Idle);
    }

    /// One frame of the interface. A finished request is handed out for
    /// display and nothing changes. Otherwise the frame moves the request
    /// on by one step and shows nothing: a submitted address is started
    /// through `factory`, a request in flight is looked at once, without
    /// waiting. Before any submit there is nothing to do.
    pub fn frame<F: FnOnce() -> Receiver<Result<ResponseData, FetchError>>>(
        &mut self,
        factory: F,
    ) -> (shown: Option<&Result<ResponseData, FetchError>>)
        requires
            old(self).resp_data == Some(DataState::<ResponseData>::Idle) ==> factory.requires(()),
        ensures
            final(self).url == old(self).url,
            final(self).cookie_display_mode == old(self).cookie_display_mode,
            match old(self).resp_data {
                None => final(self).resp_data.is_none() && shown.is_none(),
                Some(DataState::Present(outcome)) => final(self).resp_data == old(self).resp_data
                    && shown == Some(&outcome),
                Some(DataState::Idle) => shown.is_none() && exists|
                    fresh: Receiver<Result<ResponseData, FetchError>>,
                |
                    factory.ensures((), fresh) && final(self).resp_data == Some(
                        DataState::Awaiting(fresh),
                    ),
                Some(DataState::Awaiting(_)) => shown.is_none() && final(self).resp_data.is_some()
                    && (final(self).resp_data.unwrap().is_awaiting()
                    || final(self).resp_data.unwrap().outcome().is_some()),
            },
    {
        match &mut self.resp_data {
            None => None,
            Some(state) => {
                match state {
                    DataState::Present(outcome) => Some(outcome),
                    DataState::Idle => {
                        state.trigger(factory);
                        None
                    },
                    DataState::Awaiting(_) => {
                        state.poll();
                        None
                    },
                }
            },
        }
    }
}

} // verus!
