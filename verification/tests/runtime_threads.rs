use coral::runtime::{
    check_cpus, core_for_thread, cpu_cores, get_thread_index, select_cores, thread_name, RuntimeError, RuntimeConf,
    RuntimeParam,
};
use coral::text::IntErrorKind;

#[test]
fn split_thname() {
    let thname = "coral-proxy-1";
    let n = get_thread_index(Some(thname)).unwrap();
    assert_eq!(n, 1);
}

#[test]
fn thread_name_roundtrip() {
    for id in [0usize, 7, 10, 12345, usize::MAX] {
        let name = thread_name("coral-proxy", id);
        assert_eq!(name, format!("coral-proxy-{}", id));
        assert_eq!(get_thread_index(Some(&name)), Ok(id));
    }
}

#[test]
fn thread_index_errors() {
    assert_eq!(get_thread_index(None), Err(RuntimeError::NoneThreadName));
    assert_eq!(get_thread_index(Some("main")), Err(RuntimeError::NoneThreadIndex));
    assert_eq!(get_thread_index(Some("coral-")), Err(RuntimeError::ParseIntError(IntErrorKind::Empty)));
    assert_eq!(get_thread_index(Some("coral-x1")), Err(RuntimeError::ParseIntError(IntErrorKind::InvalidDigit)));
    assert_eq!(get_thread_index(Some("a-b-+")), Err(RuntimeError::ParseIntError(IntErrorKind::InvalidDigit)));
    assert_eq!(get_thread_index(Some("a-+12")), Ok(12));
    assert_eq!(
        get_thread_index(Some("a-99999999999999999999999")),
        Err(RuntimeError::ParseIntError(IntErrorKind::PosOverflow))
    );
}

#[test]
fn cpu_request_checks() {
    assert_eq!(check_cpus(0, 0, 8), Err(RuntimeError::InvalidCpuNum));
    assert_eq!(check_cpus(2, 7, 8), Err(RuntimeError::InvalidCpuNum));
    assert_eq!(check_cpus(2, 6, 8), Ok(()));
    assert_eq!(check_cpus(0, 1, 1), Ok(()));
    assert_eq!(RuntimeConf::new(0, 0).check(), Err(RuntimeError::InvalidCpuNum));
    assert_eq!(RuntimeParam { cpui: 0, nums: 1 }.check(), Ok(()));
    let conf = RuntimeConf::new(1, 3);
    assert_eq!(conf.get_cpui(), 1);
    assert_eq!(conf.get_nums(), 3);
    assert!(conf.cores().len() <= 4);
}

#[test]
fn core_selection() {
    let ids = vec![10, 11, 12, 13];
    assert_eq!(select_cores(Some(ids.clone()), 1, 2), vec![11, 12]);
    assert_eq!(select_cores(Some(ids.clone()), 3, 5), vec![13]);
    assert_eq!(select_cores(Some(ids.clone()), 4, 1), Vec::<usize>::new());
    assert_eq!(select_cores(None, 0, 3), Vec::<usize>::new());
    assert!(cpu_cores(0, 2).len() <= 2);
    assert_eq!(core_for_thread(&ids, 0), 10);
    assert_eq!(core_for_thread(&ids, 5), 11);
}
