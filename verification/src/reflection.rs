//! Discovery: the two phases that turn a server's answers into its catalog.
//!
//! A discovery first asks for the names of the services, then, for each
//! name in the server's order, for the files that declare it. Every request
//! is one exchange, and the exchanges follow one another: the next request
//! is known only when the last one has been answered. [`Discovery`] holds
//! what has been learned so far and decides, from the outcome of each
//! exchange, what to do next. It never performs an exchange itself.

use crate::catalog::{
    catalog_entries, has_untyped_method, lemma_untyped_method_fails, materialize_files,
};
use crate::collect::{chain, gather, lemma_gather_concat, lemma_gather_fails, lemma_gather_next};
use crate::descriptor::{decode_all, decoded_all, FileDescriptor, FileDescriptorView};
use crate::error::{outcome_view, ReflectionError, ReflectionErrorView, ResponseKind};
use crate::protocol::{
    answer, descriptor_payloads, file_descriptor_payloads, list_services_request, listed_names,
    response_of, service_names, symbol_request, Exchange, ExchangeView, Request, RequestView,
    ResponseView,
};
use crate::service_info::{ServiceInfo, ServiceInfoView};
use vstd::prelude::*;

verus! {

/// The names that an exchange for the services gave.
pub open spec fn named_services(exchange: ExchangeView) -> Result<
    Seq<Seq<char>>,
    ReflectionErrorView,
> {
    match answer(exchange) {
        Err(error) => Err(error),
        Ok(response) => listed_names(response),
    }
}

/// The files that an exchange for one symbol gave, decoded, in the order of
/// the response.
pub open spec fn described_files(exchange: ExchangeView) -> Result<
    Seq<FileDescriptorView>,
    ReflectionErrorView,
> {
    match answer(exchange) {
        Err(error) => Err(error),
        Ok(response) => match descriptor_payloads(response) {
            Err(error) => Err(error),
            Ok(payloads) => decoded_all(payloads),
        },
    }
}

/// The catalog's services for the files that an exchange for one symbol
/// gave. Every payload is decoded before any descriptor is checked.
pub open spec fn described_services(exchange: ExchangeView) -> Result<
    Seq<ServiceInfoView>,
    ReflectionErrorView,
> {
    match described_files(exchange) {
        Err(error) => Err(error),
        Ok(files) => catalog_entries(files),
    }
}

/// Reads the outcome of the exchange that asked for the services.
pub fn listed_services(exchange: Exchange) -> (got: Result<Vec<String>, ReflectionError>)
    ensures
        outcome_view(got) == named_services(exchange@),
{
    match response_of(exchange) {
        Ok(response) => service_names(response),
        Err(error) => Err(error),
    }
}

/// Reads the outcome of an exchange that asked for the files of a symbol:
/// requires a response that holds file descriptors and decodes each payload,
/// in the order of the response.
pub fn file_descriptors(exchange: Exchange) -> (got: Result<Vec<FileDescriptor>, ReflectionError>)
    ensures
        outcome_view(got) == described_files(exchange@),
{
    let response = match response_of(exchange) {
        Ok(response) => response,
        Err(error) => {
            return Err(error);
        },
    };
    match file_descriptor_payloads(response) {
        Ok(payloads) => decode_all(&payloads),
        Err(error) => Err(error),
    }
}

/// Reads the outcome of an exchange that asked for the files of a symbol,
/// and builds the catalog's services from the files.
pub fn file_services(exchange: Exchange) -> (got: Result<Vec<ServiceInfo>, ReflectionError>)
    ensures
        outcome_view(got) == described_services(exchange@),
{
    match file_descriptors(exchange) {
        Ok(files) => materialize_files(&files),
        Err(error) => Err(error),
    }
}

/// A discovery under way, between two exchanges.
pub struct Discovery {
    /// Whether the names have come.
    listed: bool,
    /// The names of the services, in the server's order.
    names: Vec<String>,
    /// How many of the names have had their files fetched.
    position: usize,
    /// The services of the names before `position`.
    catalog: Vec<ServiceInfo>,
}

/// What a [`Discovery`] stands for.
pub enum DiscoveryView {
    /// The request for the names of the services is out.
    Listing,
    /// The request for the files of `names[position]` is out, and `catalog`
    /// holds the services of the names before it.
    Fetching { names: Seq<Seq<char>>, position: int, catalog: Seq<ServiceInfoView> },
}

/// What a discovery does after an exchange.
pub enum Progress {
    /// Make one more exchange, with this request, and come back to this
    /// state with its outcome.
    Continue(Discovery, Request),
    /// The catalog is complete.
    Done(Vec<ServiceInfo>),
    /// The discovery failed. Nothing of the catalog is handed out.
    Failed(ReflectionError),
}

/// What a [`Progress`] stands for.
pub enum ProgressView {
    Continue(DiscoveryView, RequestView),
    Done(Seq<ServiceInfoView>),
    Failed(ReflectionErrorView),
}

impl View for Discovery {
    type V = DiscoveryView;

    closed spec fn view(&self) -> DiscoveryView {
        if self.listed {
            DiscoveryView::Fetching {
                names: self.names.deep_view(),
                position: self.position as int,
                catalog: self.catalog.deep_view(),
            }
        } else {
            DiscoveryView::Listing
        }
    }
}

impl View for Progress {
    type V = ProgressView;

    open spec fn view(&self) -> ProgressView {
        match *self {
            Progress::Continue(state, request) => ProgressView::Continue(state@, request@),
            Progress::Done(catalog) => ProgressView::Done(catalog.deep_view()),
            Progress::Failed(error) => ProgressView::Failed(error@),
        }
    }
}

/// Where a discovery stands once the files of the first `position` names
/// are in `catalog`: at its end if these are all the names, else before the
/// exchange for the next name.
pub open spec fn proceed(
    names: Seq<Seq<char>>,
    position: int,
    catalog: Seq<ServiceInfoView>,
) -> ProgressView {
    if position >= names.len() {
        ProgressView::Done(catalog)
    } else {
        ProgressView::Continue(
            DiscoveryView::Fetching { names, position, catalog },
            symbol_request(names[position]),
        )
    }
}

/// What a discovery in `state` does when the exchange it waits for comes
/// out as `exchange`.
pub open spec fn next(state: DiscoveryView, exchange: ExchangeView) -> ProgressView {
    match state {
        DiscoveryView::Listing => match named_services(exchange) {
            Err(error) => ProgressView::Failed(error),
            Ok(names) => proceed(names, 0, Seq::empty()),
        },
        DiscoveryView::Fetching { names, position, catalog } => match described_services(
            exchange,
        ) {
            Err(error) => ProgressView::Failed(error),
            Ok(services) => proceed(names, position + 1, catalog + services),
        },
    }
}

impl Discovery {
    #[verifier::type_invariant]
    spec fn well_formed(self) -> bool {
        self.listed ==> self.position < self.names.len()
    }

    /// Begins a discovery: the state to come back to, and the request of
    /// the first exchange, which asks for the names of the services.
    pub fn start() -> (opening: (Discovery, Request))
        ensures
            opening.0@ == DiscoveryView::Listing,
            opening.1@ == list_services_request(),
    {
        let state = Discovery {
            listed: false,
            names: Vec::new(),
            position: 0,
            catalog: Vec::new(),
        };
        (state, Request::list_services())
    }

    /// Goes on with the names in hand and the files of the first `position`
    /// of them in `catalog`.
    fn resume(names: Vec<String>, position: usize, catalog: Vec<ServiceInfo>) -> (progress:
        Progress)
        requires
            position <= names.len(),
        ensures
            progress@ == proceed(names.deep_view(), position as int, catalog.deep_view()),
    {
        if position == names.len() {
            Progress::Done(catalog)
        } else {
            let request = Request::file_containing_symbol(names[position].clone());
            Progress::Continue(Discovery { listed: true, names, position, catalog }, request)
        }
    }

    /// Takes the outcome of the exchange that this state waits for, and
    /// decides how the discovery goes on.
    pub fn advance(self, exchange: Exchange) -> (progress: Progress)
        ensures
            progress@ == next(self@, exchange@),
    {
        proof {
            use_type_invariant(&self);
        }
        if !self.listed {
            match listed_services(exchange) {
                Ok(names) => {
                    let catalog: Vec<ServiceInfo> = Vec::new();
                    assert(catalog.deep_view() =~= Seq::empty());
                    Discovery::resume(names, 0, catalog)
                },
                Err(error) => Progress::Failed(error),
            }
        } else {
            match file_services(exchange) {
                Ok(mut services) => {
                    let Discovery { names, position, mut catalog, .. } = self;
                    let ghost before = catalog.deep_view();
                    let ghost added = services.deep_view();
                    catalog.append(&mut services);
                    assert(catalog.deep_view() =~= before + added);
                    Discovery::resume(names, position + 1, catalog)
                },
                Err(error) => Progress::Failed(error),
            }
        }
    }
}

/// Where a discovery stands before its first exchange.
pub open spec fn opening() -> ProgressView {
    ProgressView::Continue(DiscoveryView::Listing, list_services_request())
}

/// Where a discovery that stood at `progress` stands after one more
/// exchange. A discovery that is over makes no exchange and stays as it is.
pub open spec fn follow(progress: ProgressView, exchange: ExchangeView) -> ProgressView {
    match progress {
        ProgressView::Continue(state, _) => next(state, exchange),
        _ => progress,
    }
}

/// Where a discovery stands after its exchanges came out as `exchanges`, in
/// this order, the exchange for the names being the first.
pub open spec fn after(exchanges: Seq<ExchangeView>) -> ProgressView
    decreases exchanges.len(),
{
    if exchanges.len() == 0 {
        opening()
    } else {
        follow(after(exchanges.drop_last()), exchanges.last())
    }
}

/// [`described_services`], as a step.
pub open spec fn fetch_step() -> spec_fn(ExchangeView) -> Result<
    Seq<ServiceInfoView>,
    ReflectionErrorView,
> {
    |exchange: ExchangeView| described_services(exchange)
}

/// What a whole discovery comes to when the exchange for the names comes
/// out as `listing` and the exchanges for the files, one per name and in the
/// order of the names, as `fetches`: the services of the first name's files,
/// then those of the second's, and so on; or the first error on the way.
pub open spec fn discovered(listing: ExchangeView, fetches: Seq<ExchangeView>) -> Result<
    Seq<ServiceInfoView>,
    ReflectionErrorView,
>
    recommends
        named_services(listing) matches Ok(names) ==> names.len() <= fetches.len(),
{
    match named_services(listing) {
        Err(error) => Err(error),
        Ok(names) => gather(fetches.take(names.len() as int), fetch_step()),
    }
}

/// The end of a discovery with the given result.
pub open spec fn finished(
    result: Result<Seq<ServiceInfoView>, ReflectionErrorView>,
) -> ProgressView {
    match result {
        Ok(catalog) => ProgressView::Done(catalog),
        Err(error) => ProgressView::Failed(error),
    }
}

/// A discovery that is over stays over: exchanges that would follow its
/// end change nothing.
pub proof fn lemma_after_end(exchanges: Seq<ExchangeView>, more: Seq<ExchangeView>)
    requires
        !(after(exchanges) is Continue),
    ensures
        after(exchanges + more) == after(exchanges),
    decreases more.len(),
{
    if more.len() > 0 {
        assert((exchanges + more).drop_last() =~= exchanges + more.drop_last());
        lemma_after_end(exchanges, more.drop_last());
    }
}

/// One exchange per name, in the order of the names: once the names have
/// come and the files of the first `fetched` of them have been read without
/// error, the discovery holds the services of those files in that order, and
/// asks for the files of the next name; after the last name it is done.
pub proof fn lemma_after_fetches(
    listing: ExchangeView,
    fetches: Seq<ExchangeView>,
    fetched: int,
)
    requires
        named_services(listing) is Ok,
        0 <= fetched <= fetches.len(),
        fetched <= named_services(listing)->Ok_0.len(),
    ensures
        after(seq![listing] + fetches.take(fetched)) == match gather(
            fetches.take(fetched),
            fetch_step(),
        ) {
            Err(error) => ProgressView::Failed(error),
            Ok(catalog) => proceed(named_services(listing)->Ok_0, fetched, catalog),
        },
    decreases fetched,
{
    if fetched == 0 {
        assert(seq![listing].drop_last() =~= Seq::<ExchangeView>::empty());
        assert(after(seq![listing]) == follow(after(Seq::empty()), listing));
    } else {
        let before = fetched - 1;
        lemma_after_fetches(listing, fetches, before);
        lemma_gather_next(fetches, fetch_step(), before);
        assert((seq![listing] + fetches.take(fetched)).drop_last() =~= seq![listing]
            + fetches.take(before));
    }
}

/// The discovery that [`Discovery`] steps through comes to what
/// [`discovered`] says: taken through the outcome of the exchange for the
/// names and then through the outcomes of the exchanges for the files, it
/// ends with the whole catalog or with the first error, and with nothing in
/// between.
pub proof fn lemma_discovery(listing: ExchangeView, fetches: Seq<ExchangeView>)
    requires
        named_services(listing) matches Ok(names) ==> names.len() <= fetches.len(),
    ensures
        after(seq![listing] + fetches) == finished(discovered(listing, fetches)),
{
    match named_services(listing) {
        Err(error) => {
            assert(seq![listing].drop_last() =~= Seq::<ExchangeView>::empty());
            assert(after(seq![listing]) == follow(after(Seq::empty()), listing));
            lemma_after_end(seq![listing], fetches);
        },
        Ok(names) => {
            let count = names.len() as int;
            lemma_after_fetches(listing, fetches, count);
            assert(seq![listing] + fetches =~= (seq![listing] + fetches.take(count))
                + fetches.skip(count));
            lemma_after_end(seq![listing] + fetches.take(count), fetches.skip(count));
        },
    }
}

/// The catalog keeps the order of the names: for any place among the names,
/// the services of the files fetched for the names before that place come
/// first, in their own order, and those of the names from that place on
/// come after them.
pub proof fn lemma_catalog_follows_names(
    listing: ExchangeView,
    fetches: Seq<ExchangeView>,
    place: int,
)
    requires
        named_services(listing) is Ok,
        named_services(listing)->Ok_0.len() <= fetches.len(),
        0 <= place <= named_services(listing)->Ok_0.len(),
    ensures
        discovered(listing, fetches) == chain(
            gather(fetches.take(place), fetch_step()),
            gather(
                fetches.subrange(place, named_services(listing)->Ok_0.len() as int),
                fetch_step(),
            ),
        ),
{
    let count = named_services(listing)->Ok_0.len() as int;
    assert(fetches.take(count) =~= fetches.take(place) + fetches.subrange(place, count));
    lemma_gather_concat(fetches.take(place), fetches.subrange(place, count), fetch_step());
}

/// A failure ends the discovery with nothing: if the files of the names
/// before `place` were read without error and the exchange for the name at
/// `place` fails, in any way, then the discovery fails with that error,
/// whatever the services found before and whatever the later exchanges
/// would have given.
pub proof fn lemma_failure_is_final(
    listing: ExchangeView,
    fetches: Seq<ExchangeView>,
    place: int,
)
    requires
        named_services(listing) is Ok,
        named_services(listing)->Ok_0.len() <= fetches.len(),
        0 <= place < named_services(listing)->Ok_0.len(),
        gather(fetches.take(place), fetch_step()) is Ok,
        described_services(fetches[place]) is Err,
    ensures
        discovered(listing, fetches) == Err::<Seq<ServiceInfoView>, ReflectionErrorView>(
            described_services(fetches[place])->Err_0,
        ),
        after(seq![listing] + fetches) == ProgressView::Failed(
            described_services(fetches[place])->Err_0,
        ),
{
    let count = named_services(listing)->Ok_0.len() as int;
    let front = fetches.take(count);
    lemma_gather_next(front, fetch_step(), place);
    assert(front.take(place) =~= fetches.take(place));
    lemma_gather_fails(front, fetch_step(), place + 1);
    lemma_discovery(listing, fetches);
}

/// A server without services has an empty catalog: where the exchange for
/// the names gives a list of no names, the discovery is done at once, with
/// no service and no error.
pub proof fn lemma_no_names(listing: ExchangeView, fetches: Seq<ExchangeView>)
    requires
        named_services(listing) == Ok::<Seq<Seq<char>>, ReflectionErrorView>(Seq::empty()),
    ensures
        discovered(listing, fetches) == Ok::<Seq<ServiceInfoView>, ReflectionErrorView>(
            Seq::empty(),
        ),
        after(seq![listing]) == ProgressView::Done(Seq::empty()),
{
    assert(seq![listing].drop_last() =~= Seq::<ExchangeView>::empty());
    assert(after(seq![listing]) == follow(after(Seq::empty()), listing));
}

/// A server that answers the request for the names with anything but a list
/// of services breaks the protocol: the discovery fails at once with
/// `UnexpectedResponseVariant`.
pub proof fn lemma_wrong_listing(response: ResponseView, fetches: Seq<ExchangeView>)
    requires
        !(response is ListServices),
    ensures
        discovered(ExchangeView::Answered(response), fetches) == Err::<
            Seq<ServiceInfoView>,
            ReflectionErrorView,
        >(
            ReflectionErrorView::UnexpectedResponseVariant {
                expected: ResponseKind::ListServices,
            },
        ),
        after(seq![ExchangeView::Answered(response)]) == ProgressView::Failed(
            ReflectionErrorView::UnexpectedResponseVariant {
                expected: ResponseKind::ListServices,
            },
        ),
{
    let listing = ExchangeView::Answered(response);
    assert(seq![listing].drop_last() =~= Seq::<ExchangeView>::empty());
    assert(after(seq![listing]) == follow(after(Seq::empty()), listing));
}

/// Validation is complete: if the files of the names before `place` were
/// read without error, and the files fetched for the name at `place` decode
/// and hold a method without its request type or without its response type,
/// then the discovery fails with a missing field, and hands out nothing of
/// the catalog.
pub proof fn lemma_untyped_method_fails_discovery(
    listing: ExchangeView,
    fetches: Seq<ExchangeView>,
    place: int,
)
    requires
        named_services(listing) is Ok,
        named_services(listing)->Ok_0.len() <= fetches.len(),
        0 <= place < named_services(listing)->Ok_0.len(),
        gather(fetches.take(place), fetch_step()) is Ok,
        described_files(fetches[place]) is Ok,
        has_untyped_method(described_files(fetches[place])->Ok_0),
    ensures
        discovered(listing, fetches) is Err,
        discovered(listing, fetches)->Err_0 is MissingField,
        after(seq![listing] + fetches) == ProgressView::Failed(
            discovered(listing, fetches)->Err_0,
        ),
{
    lemma_untyped_method_fails(described_files(fetches[place])->Ok_0);
    lemma_failure_is_final(listing, fetches, place);
}

} // verus!
