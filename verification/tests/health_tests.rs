use bridge::health::{
    classify_probe, u128_to_dec, InferenceServicesHealth, ProbePool, ServiceStatus,
    LATENCY_THRESHOLD, PROBE_CONCURRENCY,
};

#[test]
fn classification_thresholds() {
    // success in 100 time units is nominal
    assert_eq!(classify_probe(true, 100), ServiceStatus::Nominal);
    // success taking 600 time units is degraded
    assert_eq!(classify_probe(true, 600), ServiceStatus::Degraded);
    // the threshold itself still counts as nominal; one above does not
    assert_eq!(classify_probe(true, LATENCY_THRESHOLD), ServiceStatus::Nominal);
    assert_eq!(classify_probe(true, LATENCY_THRESHOLD + 1), ServiceStatus::Degraded);
    // a transport failure is down regardless of elapsed time
    assert_eq!(classify_probe(false, 1), ServiceStatus::Down);
    assert_eq!(classify_probe(false, 10_000), ServiceStatus::Down);
}

#[test]
fn two_service_aggregation() {
    // one backend answers 200 within the threshold, one answers 404:
    // exactly one up/nominal entry and one down entry, in either
    // completion order
    let outcomes = [(true, "fast", 120u128), (false, "broken", 80u128)];
    for order in [[0usize, 1], [1, 0]] {
        let mut nominal = 0;
        let mut down = 0;
        for &i in &order {
            let (up, _, elapsed) = outcomes[i];
            match classify_probe(up, elapsed) {
                ServiceStatus::Nominal => nominal += 1,
                ServiceStatus::Down => down += 1,
                ServiceStatus::Degraded => panic!("unexpected degraded entry"),
            }
        }
        assert_eq!(nominal, 1);
        assert_eq!(down, 1);
    }
}

#[test]
fn decimal_rendering() {
    assert_eq!(u128_to_dec(0), "0");
    assert_eq!(u128_to_dec(7), "7");
    assert_eq!(u128_to_dec(42), "42");
    assert_eq!(u128_to_dec(500), "500");
    assert_eq!(u128_to_dec(123_456_789), "123456789");
}

#[test]
fn list_builder_renders_entries() {
    let services: Vec<(url::Url, String)> = Vec::new();
    let client = reqwest::Client::new();
    let health = InferenceServicesHealth::new(&services, client);
    let mut builder = health.builder();
    builder.add_inner_body(true, "alpha", 120);
    builder.add_inner_body(false, "beta", 600);
    let html = builder.render();
    let expected_alpha = format!(
        r##"<li class="list-group-item d-flex justify-content-between align-items-start">
                <div class="ms-2 me-auto">
                    <div class="fw-bold">{}</div>
                    Service is currently {}
                </div>
                <span class="badge {} rounded-pill">{} ms</span>
            </li>"##,
        "alpha", "up", "text-bg-success", 120
    );
    let expected_beta = format!(
        r##"<li class="list-group-item d-flex justify-content-between align-items-start">
                <div class="ms-2 me-auto">
                    <div class="fw-bold">{}</div>
                    Service is currently {}
                </div>
                <span class="badge {} rounded-pill">{} ms</span>
            </li>"##,
        "beta", "down", "text-bg-danger", 600
    );
    let expected = format!(
        r##"{}{}{}"##,
        r##"<div class="bd-example m-0 border-0 text-start"><ol class="list-group list-group-flush">"##,
        format!("{}{}", expected_alpha, expected_beta),
        r##"</ol></div><button type="button" class="btn btn-primary" hx-get="/pulse/status" hx-target="#status" hx-swap="innerHTML">Refresh Status</button>"##
    );
    assert_eq!(html, expected);
}

#[test]
fn bounded_probe_pool() {
    // a catalog of 20 entries against a bound of 5: never more than 5
    // in flight, and every entry completes exactly once
    let mut pool = ProbePool::new(20);
    let mut max_in_flight = 0usize;
    let mut completed = 0usize;
    loop {
        // launch as many as the bound allows
        while pool.try_start() {
            let in_flight = pool.started - pool.finished;
            assert!(in_flight <= PROBE_CONCURRENCY);
            if in_flight > max_in_flight {
                max_in_flight = in_flight;
            }
        }
        if pool.started - pool.finished == 0 {
            break;
        }
        // one completion arrives, then launching may resume
        pool.finish();
        completed += 1;
    }
    assert_eq!(max_in_flight, PROBE_CONCURRENCY);
    assert_eq!(completed, 20);
    assert_eq!(pool.finished, 20);
    assert_eq!(pool.started, 20);
}
