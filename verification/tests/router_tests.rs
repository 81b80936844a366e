use servable::mime::MimeType;
use servable::servable::{Redirect, Servable, ServableWithRoute, StaticAsset};
use servable::{
    ClientInfo, DeviceType, RenderContext, RenderedBody, RequestMethod, ServableRouter, StrMap,
    make_cache_control, normalize_route,
};

fn ctx(route: &str) -> RenderContext {
    RenderContext {
        client_info: ClientInfo {
            device_type: DeviceType::Desktop,
        },
        route: route.to_string(),
        query: StrMap::new(),
    }
}

fn ctx_with_t(route: &str, t: &str) -> RenderContext {
    RenderContext {
        client_info: ClientInfo {
            device_type: DeviceType::Desktop,
        },
        route: route.to_string(),
        query: StrMap::new().insert("t", t.to_string()),
    }
}

fn text_asset() -> StaticAsset {
    StaticAsset {
        bytes: b"I am a page",
        mime: MimeType::Text,
        ttl: Some(60),
    }
}

#[test]
fn post_is_rejected_with_405_and_allow_header() {
    let router = ServableRouter::new().add_page("/page", text_asset());
    let r = router.respond(RequestMethod::Other, &ctx("/page"));
    assert_eq!(r.code, 405);
    assert_eq!(r.headers.get("allow").unwrap().as_str(), "GET,HEAD");
    assert!(matches!(r.body, RenderedBody::Empty));

    // the method check happens before any route lookup
    let r = router.respond(RequestMethod::Other, &ctx("/missing"));
    assert_eq!(r.code, 405);
    assert_eq!(r.headers.get("allow").unwrap().as_str(), "GET,HEAD");
}

#[test]
fn unnormalized_paths_redirect_instead_of_serving() {
    let router = ServableRouter::new().add_page("/a/b", text_asset());
    let r = router.respond(RequestMethod::Get, &ctx("/a//b/"));
    assert_eq!(r.code, 308);
    assert_eq!(r.headers.get("location").unwrap().as_str(), "/a/b");
    assert!(matches!(r.body, RenderedBody::Empty));
}

#[test]
fn normalize_route_examples() {
    assert_eq!(normalize_route("/a//b/"), "/a/b");
    assert_eq!(normalize_route("///"), "/");
    assert_eq!(normalize_route("/x///y//z/"), "/x/y/z");
}

#[test]
fn root_path_is_already_normal() {
    let router = ServableRouter::new().add_page("/", text_asset());
    let r = router.respond(RequestMethod::Get, &ctx("/"));
    assert_eq!(r.code, 200);
}

#[test]
fn get_serves_the_asset_with_finalized_headers() {
    let router = ServableRouter::new().add_page("/page", text_asset());
    let r = router.respond(RequestMethod::Get, &ctx("/page"));
    assert_eq!(r.code, 200);
    assert_eq!(r.headers.get("content-type").unwrap().as_str(), "text/plain");
    assert_eq!(
        r.headers.get("cache-control").unwrap().as_str(),
        "public, max-age=60"
    );
    assert_eq!(r.headers.get("accept-ch").unwrap().as_str(), "Sec-CH-UA-Mobile");
    match r.body {
        RenderedBody::Static(b) => assert_eq!(b, b"I am a page"),
        _ => panic!("expected static bytes"),
    }
}

#[test]
fn head_reports_the_same_metadata_with_an_empty_body() {
    let router = ServableRouter::new().add_page("/page", text_asset());
    let get = router.respond(RequestMethod::Get, &ctx("/page"));
    let head = router.respond(RequestMethod::Head, &ctx("/page"));
    assert_eq!(head.code, get.code);
    assert_eq!(head.ttl, get.ttl);
    assert_eq!(head.immutable, get.immutable);
    assert_eq!(
        head.headers.get("content-type").unwrap().as_str(),
        get.headers.get("content-type").unwrap().as_str()
    );
    assert!(matches!(head.body, RenderedBody::Empty));
}

#[test]
fn missing_routes_fall_back_to_the_builtin_404() {
    let router = ServableRouter::new().add_page("/page", text_asset());
    let r = router.respond(RequestMethod::Get, &ctx("/missing"));
    assert_eq!(r.code, 404);
    assert_eq!(r.headers.get("content-type").unwrap().as_str(), "text/html");
    assert_eq!(
        r.headers.get("cache-control").unwrap().as_str(),
        "immutable, public, max-age=86400"
    );
}

#[test]
fn configured_404_page_replaces_the_builtin_one() {
    let router: ServableRouter<StaticAsset> = ServableRouter::new().with_404(StaticAsset {
        bytes: b"gone",
        mime: MimeType::Text,
        ttl: None,
    });
    let r = router.respond(RequestMethod::Get, &ctx("/missing"));
    assert_eq!(r.code, 200);
    match r.body {
        RenderedBody::Static(b) => assert_eq!(b, b"gone"),
        _ => panic!("expected static bytes"),
    }
}

#[test]
fn add_page_overwrites_an_existing_route() {
    let router = ServableRouter::new()
        .add_page("/page", text_asset())
        .add_page(
            "/page",
            StaticAsset {
                bytes: b"new",
                mime: MimeType::Text,
                ttl: None,
            },
        );
    let r = router.respond(RequestMethod::Get, &ctx("/page"));
    match r.body {
        RenderedBody::Static(b) => assert_eq!(b, b"new"),
        _ => panic!("expected static bytes"),
    }
}

#[test]
fn ttl_none_caches_for_one_second() {
    let router = ServableRouter::new().add_page(
        "/page",
        StaticAsset {
            bytes: b"x",
            mime: MimeType::Text,
            ttl: None,
        },
    );
    let r = router.respond(RequestMethod::Get, &ctx("/page"));
    assert_eq!(r.headers.get("cache-control").unwrap().as_str(), "public, max-age=1");
}

#[test]
fn cache_control_synthesis() {
    assert_eq!(make_cache_control(None, false), "public, max-age=1");
    assert_eq!(make_cache_control(Some(0), false), "public, max-age=1");
    assert_eq!(make_cache_control(Some(-5), true), "immutable, public, max-age=1");
    assert_eq!(
        make_cache_control(Some(1209600), true),
        "immutable, public, max-age=1209600"
    );
}

#[test]
fn transform_parameter_is_ignored_for_non_image_assets() {
    let router = ServableRouter::new().add_page("/doc", text_asset());
    let r = router.respond(
        RequestMethod::Get,
        &ctx_with_t("/doc", "maxdim(10,10)"),
    );
    assert_eq!(r.code, 200);
    assert_eq!(r.headers.get("content-type").unwrap().as_str(), "text/plain");
    match r.body {
        RenderedBody::Static(b) => assert_eq!(b, b"I am a page"),
        _ => panic!("expected the asset unmodified"),
    }
}

#[test]
fn malformed_transform_chain_is_a_400() {
    let png: &'static [u8] = png_static(20, 10);
    let router = ServableRouter::new().add_page(
        "/img",
        StaticAsset {
            bytes: png,
            mime: MimeType::Png,
            ttl: None,
        },
    );
    let r = router.respond(RequestMethod::Get, &ctx_with_t("/img", "bogus(1)"));
    assert_eq!(r.code, 400);
}

fn png_static(w: u32, h: u32) -> &'static [u8] {
    let img = image::DynamicImage::ImageRgba8(image::RgbaImage::from_pixel(
        w,
        h,
        image::Rgba([1, 2, 3, 255]),
    ));
    let mut out = std::io::Cursor::new(Vec::new());
    img.write_to(&mut out, image::ImageFormat::Png).unwrap();
    Box::leak(out.into_inner().into_boxed_slice())
}

#[test]
fn image_asset_with_transform_is_resized() {
    let png = png_static(200, 100);
    let router = ServableRouter::new().add_page(
        "/img",
        StaticAsset {
            bytes: png,
            mime: MimeType::Png,
            ttl: None,
        },
    );
    let r = router.respond(RequestMethod::Get, &ctx_with_t("/img", "maxdim(50,100)"));
    assert_eq!(r.code, 200);
    assert_eq!(r.headers.get("content-type").unwrap().as_str(), "image/png");
    match r.body {
        RenderedBody::Bytes(b) => {
            let img = image::load_from_memory(&b).unwrap();
            assert_eq!((img.width(), img.height()), (50, 25));
        }
        _ => panic!("expected transformed bytes"),
    }

    // HEAD must agree without doing the work
    let h = router.respond(RequestMethod::Head, &ctx_with_t("/img", "maxdim(50,100)"));
    assert_eq!(h.code, 200);
    assert_eq!(h.headers.get("content-type").unwrap().as_str(), "image/png");
    assert!(matches!(h.body, RenderedBody::Empty));
}

#[test]
fn handle_decodes_the_raw_query() {
    let png = png_static(40, 20);
    let router = ServableRouter::new().add_page(
        "/img",
        StaticAsset {
            bytes: png,
            mime: MimeType::Png,
            ttl: None,
        },
    );
    let r = router.handle(
        RequestMethod::Get,
        "/img",
        "t=maxdim(10%2C10)",
        "",
        "",
    );
    assert_eq!(r.code, 200);
    match r.body {
        RenderedBody::Bytes(b) => {
            let img = image::load_from_memory(&b).unwrap();
            assert_eq!((img.width(), img.height()), (10, 5));
        }
        _ => panic!("expected transformed bytes"),
    }
}

#[test]
fn redirect_servable_reports_location() {
    let red = Redirect::new("/elsewhere".to_string()).unwrap();
    let r = red.head(&ctx("/old"));
    assert_eq!(r.code, 308);
    assert_eq!(r.headers.get("location").unwrap().as_str(), "/elsewhere");
    let red = Redirect::new_307("/elsewhere".to_string()).unwrap();
    let r = red.head(&ctx("/old"));
    assert_eq!(r.code, 307);
    assert!(Redirect::new("bad\u{1}value".to_string()).is_err());
}

#[test]
fn servable_with_route_keeps_its_route() {
    let s = ServableWithRoute::new("/here".to_string(), text_asset());
    assert_eq!(s.route(), "/here");
}

#[test]
fn client_info_detects_mobile_devices() {
    let m = ClientInfo::from_header_values("Mozilla (Mobile; X)", "");
    assert_eq!(m.device_type, DeviceType::Mobile);
    let m = ClientInfo::from_header_values("", "?1");
    assert_eq!(m.device_type, DeviceType::Mobile);
    let m = ClientInfo::from_header_values("Mozilla Desktop", "?0");
    assert_eq!(m.device_type, DeviceType::Desktop);
}

#[test]
fn cache_bust_strings_have_a_fixed_length() {
    let a = servable::new_cache_bust_string();
    assert_eq!(a.chars().count(), 10);
    assert!(a.chars().all(|c| c.is_ascii_alphanumeric()));
}

#[test]
fn add_page_with_route_registers_under_its_own_route() {
    let swr: &'static ServableWithRoute<StaticAsset> = Box::leak(Box::new(ServableWithRoute::new(
        "/static".to_string(),
        text_asset(),
    )));
    let router = ServableRouter::new().add_page_with_route(swr);
    let r = router.respond(RequestMethod::Get, &ctx("/static"));
    assert_eq!(r.code, 200);
    match r.body {
        RenderedBody::Static(b) => assert_eq!(b, b"I am a page"),
        _ => panic!("expected static bytes"),
    }
}

#[test]
fn valid_route_checks() {
    assert!(servable::valid_route("/"));
    assert!(servable::valid_route("/a/b"));
    assert!(!servable::valid_route(""));
    assert!(!servable::valid_route("a/b"));
    assert!(!servable::valid_route("/a/"));
    assert!(!servable::valid_route("/a//b"));
}

#[test]
fn transform_failure_is_a_500_on_get_only() {
    // bytes that claim to be a png but cannot be decoded
    let router = ServableRouter::new().add_page(
        "/img",
        StaticAsset {
            bytes: b"not really a png",
            mime: MimeType::Png,
            ttl: Some(30),
        },
    );
    let get = router.respond(RequestMethod::Get, &ctx_with_t("/img", "maxdim(10,10)"));
    assert_eq!(get.code, 500);
    assert_eq!(get.ttl, Some(30));
    // HEAD cannot know decoding will fail: it reports the metadata of the
    // successful answer
    let head = router.respond(RequestMethod::Head, &ctx_with_t("/img", "maxdim(10,10)"));
    assert_eq!(head.code, 200);
}

#[test]
fn strmap_set_replaces_an_existing_value() {
    let m = StrMap::new().set("a", "1".to_string()).set("a", "2".to_string());
    assert_eq!(m.get("a").unwrap().as_str(), "2");
    assert_eq!(m.len(), 1);
    let m = m.set("b", "3".to_string());
    assert_eq!(m.get("b").unwrap().as_str(), "3");
    assert_eq!(m.len(), 2);
}
