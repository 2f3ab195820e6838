use cuda_host::context::terminate;
use cuda_host::{check, Context, CudaError, Reply, Request, CUDA_SUCCESS};

#[test]
fn check_passes_success_only() {
    assert_eq!(check(CUDA_SUCCESS), Ok(()));
    assert_eq!(check(0), Ok(()));
    assert_eq!(check(1), Err(CudaError::Other(1)));
    assert_eq!(check(700), Err(CudaError::Other(700)));
    assert_eq!(check(u32::MAX), Err(CudaError::Other(u32::MAX)));
}

#[test]
fn a_status_converts_into_the_driver_error() {
    assert_eq!(CudaError::from(719), CudaError::Other(719));
    assert_eq!(CudaError::from(0), CudaError::Other(0));
    let e: CudaError = 35.into();
    assert_eq!(e, CudaError::Other(35));
    assert_ne!(CudaError::Prohibited, CudaError::Other(0));
}

#[test]
fn terminate_appends_a_zero_byte() {
    assert_eq!(terminate("copy"), vec![b'c', b'o', b'p', b'y', 0]);
    assert_eq!(terminate(""), vec![0]);
    assert_eq!(terminate("é"), vec![0xc3, 0xa9, 0]);
}

#[test]
fn module_load_request_carries_the_text_with_its_terminator() {
    let context = Context::new(0x5000);
    assert_eq!(
        context.create_module_request(".version 6.0"),
        Request::ModuleLoadData { image: b".version 6.0\0".to_vec() }
    );
}

#[test]
fn module_load_request_forwards_terminated_bytes() {
    let context = Context::new(0x5000);
    assert_eq!(
        context.create_module_null_terminated_request(b"\x7fELF\0"),
        Request::ModuleLoadData { image: vec![0x7f, b'E', b'L', b'F', 0] }
    );
    assert_eq!(
        context.create_module_null_terminated_request(b"\0"),
        Request::ModuleLoadData { image: vec![0] }
    );
}

#[test]
fn loaded_module_has_the_handle_and_the_context() {
    let context = Context::new(0x5000);
    let module = match context.create_module(Reply { status: 0, value: 0x6000 }) {
        Ok(module) => module,
        Err(e) => panic!("load failed: {:?}", e),
    };
    assert_eq!(module.handle(), 0x6000);
    assert_eq!(module.context().handle(), 0x5000);
    let module = match context.create_module_null_terminated(Reply { status: 0, value: 0x6100 }) {
        Ok(module) => module,
        Err(e) => panic!("load failed: {:?}", e),
    };
    assert_eq!(module.handle(), 0x6100);
    assert_eq!(module.context().handle(), 0x5000);
}

#[test]
fn module_load_failure_is_the_driver_error() {
    let context = Context::new(0x5000);
    let r = context.create_module(Reply { status: 200, value: 0 });
    assert_eq!(r.err(), Some(CudaError::Other(200)));
    let r = context.create_module_null_terminated(Reply { status: 218, value: 0x6000 });
    assert_eq!(r.err(), Some(CudaError::Other(218)));
}

#[test]
fn function_lookup_request_names_module_and_entry_point() {
    let context = Context::new(0x5000);
    let module = context.create_module(Reply { status: 0, value: 0x6000 }).ok().unwrap();
    assert_eq!(
        module.get_request("copy"),
        Request::ModuleGetFunction { module: 0x6000, name: b"copy\0".to_vec() }
    );
}

#[test]
fn resolved_function_has_handle_name_and_module() {
    let context = Context::new(0x5000);
    let module = context.create_module(Reply { status: 0, value: 0x6000 }).ok().unwrap();
    let function = match module.get("copy", Reply { status: 0, value: 0x7000 }) {
        Ok(function) => function,
        Err(e) => panic!("lookup failed: {:?}", e),
    };
    assert_eq!(function.handle(), 0x7000);
    assert_eq!(function.name(), "copy");
    assert_eq!(function.module().handle(), 0x6000);
}

#[test]
fn function_lookup_failure_is_the_driver_error() {
    let context = Context::new(0x5000);
    let module = context.create_module(Reply { status: 0, value: 0x6000 }).ok().unwrap();
    let r = module.get("missing", Reply { status: 500, value: 0 });
    assert_eq!(r.err(), Some(CudaError::Other(500)));
}

#[test]
fn releasing_a_context_destroys_it() {
    let context = Context::new(0x5000);
    {
        let module = context.create_module(Reply { status: 0, value: 0x6000 }).ok().unwrap();
        assert_eq!(module.handle(), 0x6000);
    }
    assert_eq!(context.release(), Request::CtxDestroy { context: 0x5000 });
}
