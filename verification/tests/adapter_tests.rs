use async_adapter::adapter::to_async;
use async_adapter::endpoints::EchoHandler;
use async_adapter::endpoints::InfoHandler;
use async_adapter::endpoints::InfoReply;
use async_adapter::endpoints::PingHandler;
use async_adapter::endpoints::Server;
use async_adapter::error::ConvertError;
use async_adapter::error::Error;
use async_adapter::error::ExtractError;
use async_adapter::error::HandlerError;
use async_adapter::extract::parse_decimal;
use async_adapter::extract::FromRequest;
use async_adapter::extract::RecordBody;
use async_adapter::extract::SharedValue;
use async_adapter::factory::AsyncFactory;
use async_adapter::future::Async;
use async_adapter::future::Compat;
use async_adapter::future::FuturePoll;
use async_adapter::future::SpawnedFuture;
use async_adapter::http::HttpResponse;
use async_adapter::http::RequestHead;
use async_adapter::http::ResponseBody;
use async_adapter::http::ServiceRequest;
use async_adapter::http::ServiceResponse;
use async_adapter::respond::BoundedValue;
use async_adapter::respond::Responder;

fn head_with(shared: Option<u64>) -> RequestHead {
    RequestHead { shared_data: shared }
}

#[test]
fn parse_decimal_decodes_digit_runs() {
    assert_eq!(parse_decimal(&vec![b'0']), Some(0));
    assert_eq!(parse_decimal(&vec![b'4', b'2']), Some(42));
    assert_eq!(parse_decimal(&vec![b'0', b'0', b'7']), Some(7));
    let nineteen_nines = vec![b'9'; 19];
    assert_eq!(parse_decimal(&nineteen_nines), Some(9_999_999_999_999_999_999));
}

#[test]
fn parse_decimal_rejects_malformed_bodies() {
    assert_eq!(parse_decimal(&vec![]), None);
    assert_eq!(parse_decimal(&vec![b'1', b'2', b'a']), None);
    assert_eq!(parse_decimal(&vec![b' ', b'5']), None);
    let twenty_ones = vec![b'1'; 20];
    assert_eq!(parse_decimal(&twenty_ones), None);
}

#[test]
fn arity_zero_adapted_call_equals_direct_call() {
    let handler = PingHandler;
    assert_eq!(handler.call(()), Server::ping());
}

#[test]
fn arity_one_adapted_call_equals_direct_call() {
    let handler = EchoHandler { limit: 100 };
    let record = RecordBody { value: 17 };
    assert_eq!(handler.call((record,)), handler.echo(record));
}

#[test]
fn arity_two_adapted_call_equals_direct_call() {
    let handler = InfoHandler;
    let shared = SharedValue { value: 42 };
    let record = RecordBody { value: 123 };
    assert_eq!(handler.call((shared, record)), Server::info(shared, record));
}

#[test]
fn successful_call_resolves_to_converted_handler_output() {
    let mut adapter = to_async(InfoHandler);
    let head = head_with(Some(42));
    let req = ServiceRequest::new(head, vec![b'1', b'2', b'3']);
    let mut fut = adapter.call(req);
    let expected = ServiceResponse {
        head,
        response: HttpResponse {
            status: 200,
            body: ResponseBody::Record { shared: 42, value: 123 },
        },
    };
    assert_eq!(fut.poll(), Ok(Async::Ready(expected)));
}

#[test]
fn extraction_failure_resolves_to_derived_error() {
    let mut adapter = to_async(EchoHandler { limit: 100 });
    let req = ServiceRequest::new(head_with(None), vec![b'n', b'o']);
    let mut fut = adapter.call(req);
    assert_eq!(fut.poll(), Err(Error::Extract(ExtractError::MalformedBody)));
}

#[test]
fn missing_shared_value_fails_extraction_before_the_body() {
    let mut adapter = to_async(InfoHandler);
    // The body is malformed too, but the first position fails first.
    let req = ServiceRequest::new(head_with(None), vec![b'x']);
    let mut fut = adapter.call(req);
    assert_eq!(fut.poll(), Err(Error::Extract(ExtractError::MissingSharedData)));
}

#[test]
fn cloned_adapters_answer_their_own_requests_independently() {
    let adapter = to_async(EchoHandler { limit: 1000 });
    let mut first = adapter.clone();
    let mut second = adapter.clone();

    let mut fut_first = first.call(ServiceRequest::new(head_with(None), vec![b'7']));
    let mut fut_second = second.call(ServiceRequest::new(head_with(None), vec![b'8']));

    // Interleave the polls: each in-flight future resolves to the outcome
    // of its own request, uncorrelated with the other.
    let second_out = fut_second.poll();
    let first_out = fut_first.poll();

    let expect = |v: u64| {
        Ok(Async::Ready(ServiceResponse {
            head: head_with(None),
            response: HttpResponse { status: 200, body: ResponseBody::Number(v) },
        }))
    };
    assert_eq!(first_out, expect(7));
    assert_eq!(second_out, expect(8));
}

#[test]
fn readiness_probe_is_ready_regardless_of_history() {
    let mut adapter = to_async(PingHandler);
    assert_eq!(adapter.poll_ready(), Ok(Async::Ready(())));
    let mut fut = adapter.call(ServiceRequest::new(head_with(None), vec![]));
    assert_eq!(adapter.poll_ready(), Ok(Async::Ready(())));
    let _ = fut.poll();
    assert_eq!(adapter.poll_ready(), Ok(Async::Ready(())));
    assert_eq!(adapter.poll_ready(), Ok(Async::Ready(())));
}

#[test]
fn bridge_reports_pending_then_delivers_the_result_once() {
    let inner: SpawnedFuture<Result<u64, Error>> = SpawnedFuture::delayed(2, Ok(7));
    let mut bridge = Compat::new(inner);
    assert_eq!(bridge.poll(), Ok(Async::NotReady));
    assert_eq!(bridge.poll(), Ok(Async::NotReady));
    assert_eq!(bridge.poll(), Ok(Async::Ready(7)));
    // The final result has been handed out: the bridge is spent.
    assert_eq!(bridge.inner.output, None);
}

#[test]
fn bridge_translates_a_failed_outcome() {
    let failure = Error::Handler(HandlerError::Failed(3));
    let inner: SpawnedFuture<Result<u64, Error>> = SpawnedFuture::delayed(1, Err(failure));
    let mut bridge = Compat::new(inner);
    assert_eq!(bridge.poll(), Ok(Async::NotReady));
    assert_eq!(bridge.poll(), Err(failure));
    assert_eq!(bridge.inner.output, None);
}

#[test]
fn modern_future_counts_down_and_resolves() {
    let mut fut = SpawnedFuture::delayed(1, 5u64);
    assert_eq!(fut.poll(), FuturePoll::Pending);
    assert_eq!(fut.poll(), FuturePoll::Ready(5));
    assert_eq!(fut.output, None);
}

#[test]
fn ping_end_to_end_yields_ok_with_no_body() {
    let mut adapter = to_async(PingHandler);
    let head = head_with(None);
    let mut fut = adapter.call(ServiceRequest::new(head, vec![]));
    let expected = ServiceResponse {
        head,
        response: HttpResponse { status: 200, body: ResponseBody::Empty },
    };
    assert_eq!(fut.poll(), Ok(Async::Ready(expected)));
}

#[test]
fn info_end_to_end_reflects_both_arguments() {
    let server = Server { id: 42 };
    let mut adapter = to_async(InfoHandler);
    let head = head_with(Some(server.id));
    let mut fut = adapter.call(ServiceRequest::new(head, vec![b'9', b'0']));
    let expected = ServiceResponse {
        head,
        response: HttpResponse {
            status: 200,
            body: ResponseBody::Record { shared: 42, value: 90 },
        },
    };
    assert_eq!(fut.poll(), Ok(Async::Ready(expected)));
}

#[test]
fn conversion_failure_resolves_to_conversion_error() {
    let mut adapter = to_async(EchoHandler { limit: 10 });
    let mut fut = adapter.call(ServiceRequest::new(head_with(None), vec![b'1', b'1']));
    assert_eq!(fut.poll(), Err(Error::Convert(ConvertError::ValueTooLarge)));

    // At the bound itself the conversion still succeeds.
    let mut fut = adapter.call(ServiceRequest::new(head_with(None), vec![b'1', b'0']));
    let expected = ServiceResponse {
        head: head_with(None),
        response: HttpResponse { status: 200, body: ResponseBody::Number(10) },
    };
    assert_eq!(fut.poll(), Ok(Async::Ready(expected)));
}

#[test]
fn handler_failure_is_carried_through_as_handler_error() {
    let failed: Result<InfoReply, HandlerError> = Err(HandlerError::Failed(9));
    let converted = failed.respond_to(&head_with(None));
    assert_eq!(converted, Err(Error::Handler(HandlerError::Failed(9))));

    let succeeded: Result<InfoReply, HandlerError> = Ok(InfoReply { server_id: 1, record: 2 });
    let converted = succeeded.respond_to(&head_with(None));
    assert_eq!(
        converted,
        Ok(HttpResponse { status: 200, body: ResponseBody::Record { shared: 1, value: 2 } })
    );
}

#[test]
fn bounded_value_converts_within_its_limit() {
    let ok = BoundedValue { value: 3, limit: 3 };
    assert_eq!(
        ok.respond_to(&head_with(None)),
        Ok(HttpResponse { status: 200, body: ResponseBody::Number(3) })
    );
    let too_large = BoundedValue { value: 4, limit: 3 };
    assert_eq!(
        too_large.respond_to(&head_with(None)),
        Err(Error::Convert(ConvertError::ValueTooLarge))
    );
}

#[test]
fn service_factory_produces_a_ready_independent_adapter() {
    let adapter = to_async(EchoHandler { limit: 50 });
    let mut construction = adapter.new_service(&());
    let produced = match construction.poll() {
        FuturePoll::Ready(Ok(svc)) => svc,
        other => panic!("construction did not resolve immediately: {:?}", other),
    };
    assert_eq!(produced.handler, adapter.handler);

    let mut produced = produced;
    let mut fut = produced.call(ServiceRequest::new(head_with(None), vec![b'5']));
    let expected = ServiceResponse {
        head: head_with(None),
        response: HttpResponse { status: 200, body: ResponseBody::Number(5) },
    };
    assert_eq!(fut.poll(), Ok(Async::Ready(expected)));
}

#[test]
fn extractors_read_their_own_parts_of_the_request() {
    let head = head_with(Some(8));
    let payload = vec![b'3', b'1'];
    assert_eq!(
        SharedValue::from_request(&head, &payload),
        Ok(SharedValue { value: 8 })
    );
    assert_eq!(
        RecordBody::from_request(&head, &payload),
        Ok(RecordBody { value: 31 })
    );
    let pair = <(SharedValue, RecordBody)>::from_request(&head, &payload);
    assert_eq!(pair, Ok((SharedValue { value: 8 }, RecordBody { value: 31 })));
    let unit = <() as FromRequest>::from_request(&head, &payload);
    assert_eq!(unit, Ok(()));
}
