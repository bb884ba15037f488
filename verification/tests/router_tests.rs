use gpu_exporter::router::Route;
use gpu_exporter::router::not_found_body;
use gpu_exporter::router::response_status;
use gpu_exporter::router::route;

#[test]
fn known_routes_dispatch() {
    assert_eq!(route("GET", "/metrics"), Route::Metrics);
    assert_eq!(route("GET", "/gpustat"), Route::GpuStat);
}

#[test]
fn unknown_route_is_not_found() {
    assert_eq!(route("GET", "/unknown"), Route::NotFound);
    assert_eq!(route("GET", "/"), Route::NotFound);
    assert_eq!(route("GET", "/metrics/"), Route::NotFound);
    assert_eq!(route("POST", "/metrics"), Route::NotFound);
    assert_eq!(route("PUT", "/gpustat"), Route::NotFound);
}

#[test]
fn unknown_route_responds_404_regardless_of_pass() {
    assert_eq!(response_status(&Route::NotFound, true), 404);
    assert_eq!(response_status(&Route::NotFound, false), 404);
    assert_eq!(not_found_body(), "Not found");
}

#[test]
fn served_routes_respond_by_pass_outcome() {
    assert_eq!(response_status(&Route::Metrics, true), 200);
    assert_eq!(response_status(&Route::Metrics, false), 500);
    assert_eq!(response_status(&Route::GpuStat, true), 200);
    assert_eq!(response_status(&Route::GpuStat, false), 500);
}
