use play::dispatch::{Dispatcher, Job, Step};
use play::engine::{Engine, FakeEngine, RecordingEngine};
use play::error::{engine_outcome, EngineError, RenderError};
use play::template::Template;
use play::web::AppError;

fn page(name: &'static str) -> Template {
    Template::StaticTemplate { name, content: "<p>{{content}}</p>" }
}

fn dynamic(name: &str, content: &str) -> Template {
    Template::DynamicTemplate { name: name.to_string(), content: content.to_string() }
}

#[test]
fn fake_engine_renders_the_name() {
    let mut engine = FakeEngine::new();
    let t = dynamic("hello.html", "Hello {{name}}");
    let r = engine.render(&t, &vec![("name".to_string(), "world".to_string())]);
    assert_eq!(r, Ok("[rendered:hello.html]".to_string()));
    let r2 = engine.render(&t, &Vec::<(String, String)>::new());
    assert_eq!(r2, Ok("[rendered:hello.html]".to_string()));
}

#[test]
fn submit_process_take() {
    let mut d: Dispatcher<u32> = Dispatcher::new();
    let t = d.submit(page("hello.html"), 7).unwrap();
    assert_eq!(t, 0);
    assert!(d.is_pending(t));
    assert_eq!(d.take(t), None);
    let mut engine = FakeEngine::new();
    assert_eq!(d.process_next(&mut engine), Step::Rendered(0));
    assert!(!d.is_pending(t));
    assert_eq!(d.take(t), Some(Ok("[rendered:hello.html]".to_string())));
    assert_eq!(d.take(t), None);
}

#[test]
fn fail_fast_after_close() {
    let mut d: Dispatcher<u32> = Dispatcher::new();
    d.close();
    assert!(!d.is_open());
    assert_eq!(d.submit(page("hello.html"), 1), Err(RenderError::EngineUnavailable));
    assert_eq!(d.queued_len(), 0);
}

#[test]
fn close_still_drains_queued_requests() {
    let mut d: Dispatcher<u32> = Dispatcher::new();
    let a = d.submit(page("a.html"), 1).unwrap();
    d.close();
    let mut engine = FakeEngine::new();
    assert_eq!(d.process_next(&mut engine), Step::Rendered(a));
    assert_eq!(d.process_next(&mut engine), Step::Stopped);
    assert_eq!(d.take(a), Some(Ok("[rendered:a.html]".to_string())));
}

#[test]
fn empty_name_is_not_found() {
    let mut d: Dispatcher<u32> = Dispatcher::new();
    assert_eq!(d.submit(dynamic("", "x"), 1), Err(RenderError::TemplateNotFound));
    assert_eq!(d.queued_len(), 0);
}

#[test]
fn fifo_processing() {
    let mut d: Dispatcher<u32> = Dispatcher::new();
    let a = d.submit(page("a.html"), 1).unwrap();
    let b = d.submit(page("b.html"), 2).unwrap();
    assert!(a < b);
    let mut engine = RecordingEngine::new();
    assert_eq!(d.drain(&mut engine), 2);
    assert_eq!(engine.log(), &vec!["a.html".to_string(), "b.html".to_string()]);
}

#[test]
fn worker_jobs_in_order() {
    let mut d: Dispatcher<u32> = Dispatcher::new();
    assert!(matches!(d.start_next(), Job::Wait));
    let a = d.submit(page("a.html"), 1).unwrap();
    let b = d.submit(page("b.html"), 2).unwrap();
    match d.start_next() {
        Job::Render(req) => {
            assert_eq!(req.ticket, a);
            assert_eq!(req.payload, 1);
            assert!(!d.is_idle());
            d.finish(Ok("A".to_string()));
        }
        _ => panic!("expected a job"),
    }
    assert!(d.is_idle());
    match d.start_next() {
        Job::Render(req) => {
            assert_eq!(req.ticket, b);
            d.finish(Err(EngineError::Payload("bad shape".to_string())));
        }
        _ => panic!("expected a job"),
    }
    d.close();
    assert!(matches!(d.start_next(), Job::Exit));
    assert_eq!(d.take(a), Some(Ok("A".to_string())));
    assert_eq!(d.take(b), Some(Err(RenderError::PayloadError("bad shape".to_string()))));
}

#[test]
fn undefined_binding_is_render_failure() {
    // The worker reports what the engine said about an undefined binding;
    // only that request's caller sees it, and the next request is served.
    let mut d: Dispatcher<Vec<(String, String)>> = Dispatcher::new();
    let bad = d.submit(dynamic("broken.html", "Hi {{missing}}"), Vec::new()).unwrap();
    let good = d.submit(dynamic("ok.html", "Hi"), Vec::new()).unwrap();
    match d.start_next() {
        Job::Render(req) => {
            assert_eq!(req.ticket, bad);
            assert!(req.template.content().contains("{{missing}}"));
            d.finish(Err(EngineError::Render("undefined binding: missing".to_string())));
        }
        _ => panic!("expected a job"),
    }
    let mut engine = FakeEngine::new();
    assert_eq!(d.process_next(&mut engine), Step::Rendered(good));
    assert_eq!(
        d.take(bad),
        Some(Err(RenderError::RenderFailure("undefined binding: missing".to_string())))
    );
    assert_eq!(d.take(good), Some(Ok("[rendered:ok.html]".to_string())));
}

#[test]
fn hundred_requests_isolated() {
    let mut d: Dispatcher<String> = Dispatcher::new();
    let mut tickets = Vec::new();
    for i in 0..100 {
        let tag = format!("tag-{}", i);
        let t = d.submit(dynamic(&format!("page-{}.html", tag), "x"), tag.clone()).unwrap();
        tickets.push((t, tag));
    }
    let mut engine = FakeEngine::new();
    assert_eq!(d.drain(&mut engine), 100);
    for (t, tag) in tickets.iter().rev() {
        let out = d.take(*t).unwrap().unwrap();
        assert_eq!(out, format!("[rendered:page-{}.html]", tag));
        for j in 0..100 {
            let other = format!("tag-{}.", j);
            assert_eq!(out.contains(&other), other == format!("{}.", tag));
        }
    }
}

#[test]
fn abandoned_request_is_served_and_dropped() {
    let mut d: Dispatcher<u32> = Dispatcher::new();
    let a = d.submit(page("a.html"), 1).unwrap();
    let b = d.submit(page("b.html"), 2).unwrap();
    d.abandon(a);
    assert!(d.is_pending(a));
    let mut engine = RecordingEngine::new();
    assert_eq!(d.drain(&mut engine), 2);
    assert_eq!(engine.log().len(), 2);
    assert!(!d.is_pending(a));
    assert_eq!(d.take(a), None);
    assert_eq!(d.take(b), Some(Ok("[rendered:b.html]".to_string())));
}

#[test]
fn abandon_after_delivery_drops_the_outcome() {
    let mut d: Dispatcher<u32> = Dispatcher::new();
    let a = d.submit(page("a.html"), 1).unwrap();
    let mut engine = FakeEngine::new();
    d.drain(&mut engine);
    d.abandon(a);
    assert_eq!(d.take(a), None);
    assert_eq!(d.take(99), None);
}

#[test]
fn engine_errors_map_to_caller_errors() {
    assert_eq!(
        engine_outcome(Err(EngineError::Render("syntax".to_string()))),
        Err(RenderError::RenderFailure("syntax".to_string()))
    );
    assert_eq!(
        engine_outcome(Err(EngineError::Payload("shape".to_string()))),
        Err(RenderError::PayloadError("shape".to_string()))
    );
    assert_eq!(engine_outcome(Ok("x".to_string())), Ok("x".to_string()));
    assert!(RenderError::EngineUnavailable.is_unavailable());
    assert!(!RenderError::TemplateNotFound.is_unavailable());
}

#[test]
fn app_error_hides_the_cause() {
    let e = AppError::from(RenderError::RenderFailure("secret detail".to_string()));
    assert_eq!(e.status_code(), 500);
    assert_eq!(e.body(), "Server Error");
    assert_eq!(e.cause(), &RenderError::RenderFailure("secret detail".to_string()));
}

#[test]
fn template_accessors() {
    let s = page("a.html");
    assert_eq!(s.name(), "a.html");
    assert_eq!(s.content(), "<p>{{content}}</p>");
    assert!(!s.is_dynamic());
    assert!(dynamic("b", "c").is_dynamic());
}

#[test]
fn poll_reports_each_state() {
    let mut d: Dispatcher<u32> = Dispatcher::new();
    let a = d.submit(page("a.html"), 1).unwrap();
    assert_eq!(d.poll(a), None);
    let mut engine = FakeEngine::new();
    d.drain(&mut engine);
    assert_eq!(d.poll(a), Some(Ok("[rendered:a.html]".to_string())));
    assert_eq!(d.poll(a), Some(Err(RenderError::EngineUnavailable)));
    assert_eq!(d.poll(42), Some(Err(RenderError::EngineUnavailable)));
}

#[test]
fn drain_leaves_nothing_owed() {
    let mut d: Dispatcher<u32> = Dispatcher::new();
    let mut tickets = Vec::new();
    for i in 0..10 {
        tickets.push(d.submit(page("p.html"), i).unwrap());
    }
    d.abandon(tickets[3]);
    let mut engine = FakeEngine::new();
    assert_eq!(d.drain(&mut engine), 10);
    assert_eq!(d.queued_len(), 0);
    assert!(d.is_idle());
    for t in &tickets {
        assert!(!d.is_pending(*t));
    }
    assert_eq!(d.take(tickets[3]), None);
    assert_eq!(d.take(tickets[4]), Some(Ok("[rendered:p.html]".to_string())));
}
