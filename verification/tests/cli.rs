use wasm_sandbox::cli::{
    memory_limit_bytes, Cli, Commands, BYTES_PER_MEGABYTE, DEFAULT_FUEL, DEFAULT_FUNCTION,
    DEFAULT_MEMORY_MB,
};

#[test]
fn the_defaults_are_add_ten_megabytes_and_ten_thousand() {
    assert_eq!(DEFAULT_FUNCTION, "add");
    assert_eq!(DEFAULT_MEMORY_MB, 10);
    assert_eq!(DEFAULT_FUEL, 10000);
    assert_eq!(BYTES_PER_MEGABYTE, 1024 * 1024);
}

#[test]
fn megabytes_become_bytes() {
    assert_eq!(memory_limit_bytes(0), 0);
    assert_eq!(memory_limit_bytes(1), 1048576);
    assert_eq!(memory_limit_bytes(10), 10485760);
    assert_eq!(memory_limit_bytes(DEFAULT_MEMORY_MB), 10485760);
}

#[test]
fn a_ceiling_too_large_to_count_is_the_largest_there_is() {
    let most = usize::MAX / BYTES_PER_MEGABYTE;
    assert_eq!(memory_limit_bytes(most), most * BYTES_PER_MEGABYTE);
    assert_eq!(memory_limit_bytes(most + 1), usize::MAX);
    assert_eq!(memory_limit_bytes(usize::MAX), usize::MAX);
}

#[test]
fn a_command_becomes_a_request() {
    let cli = Cli {
        command: Commands::Run {
            path: String::from("guest.wasm"),
            function: String::from("add"),
            memory: 10,
            fuel: 10000,
            args: vec![5, 10],
        },
    };
    let request = cli.into_request();
    assert_eq!(request.module_file, "guest.wasm");
    assert_eq!(request.function_name, "add");
    assert_eq!(request.args, vec![5, 10]);
    assert_eq!(request.memory_limit_bytes, 10485760);
    assert_eq!(request.fuel_budget, 10000);
}

#[test]
fn a_command_may_have_no_arguments() {
    let command = Commands::Run {
        path: String::new(),
        function: String::from("spin"),
        memory: 0,
        fuel: 0,
        args: vec![],
    };
    let request = command.into_request();
    assert!(request.args.is_empty());
    assert_eq!(request.memory_limit_bytes, 0);
    assert_eq!(request.fuel_budget, 0);
}
