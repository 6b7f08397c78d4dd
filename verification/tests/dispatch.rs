use ledger_gen::ledgers::{bpf_loader_ledger, Invocation};
use ledger_gen::scenario::Scenario;
use std::cell::RefCell;
use std::sync::Arc;

struct Connection {
    id: u32,
}

struct Keys {
    id: u32,
}

struct Recorded {
    scenario: Scenario,
    client: u32,
    arc_client: u32,
    payer: u32,
    program_data: Vec<u8>,
    account_data: Vec<u8>,
}

fn record(log: &RefCell<Vec<Recorded>>, call: &Invocation<Connection, Arc<Connection>, Keys>) {
    log.borrow_mut().push(Recorded {
        scenario: call.scenario,
        client: call.client.id,
        arc_client: call.arc_client.id,
        payer: call.payer.id,
        program_data: call.program_data.clone(),
        account_data: call.account_data.clone(),
    });
}

fn scenarios_of(log: &RefCell<Vec<Recorded>>) -> Vec<Scenario> {
    log.borrow().iter().map(|entry| entry.scenario).collect()
}

const ORDER: [Scenario; 10] = [
    Scenario::DeployInvokeSameSlot,
    Scenario::DeployInvokeDiffSlot,
    Scenario::UpgradeInvokeSameSlot,
    Scenario::UpgradeInvokeDiffSlot,
    Scenario::DeployCloseSameSlot,
    Scenario::DeployCloseDiffSlot,
    Scenario::CloseInvokeSameSlot,
    Scenario::CloseInvokeDiffSlot,
    Scenario::CloseRedeploySameSlot,
    Scenario::CloseRedeployDiffSlot,
];

#[test]
fn ledger_invokes_the_ten_scenarios_once_each_and_in_order() {
    let client = Connection { id: 11 };
    let shared = Arc::new(Connection { id: 11 });
    let payer = Keys { id: 42 };
    let program = vec![0x7f, 0x45, 0x4c, 0x46, 0x02];
    let account = vec![0xde, 0xad, 0xbe, 0xef];
    let log = RefCell::new(Vec::new());
    let result: Result<(), String> =
        bpf_loader_ledger(&client, &shared, &payer, &program, &account, |call| {
            record(&log, &call);
            Ok(())
        });
    assert_eq!(result, Ok(()));
    assert_eq!(log.borrow().len(), 10);
    assert_eq!(scenarios_of(&log), ORDER.to_vec());
    let names: Vec<&str> = log.borrow().iter().map(|entry| entry.scenario.name()).collect();
    assert_eq!(
        names,
        vec![
            "deploy_invoke_same_slot",
            "deploy_invoke_diff_slot",
            "upgrade_invoke_same_slot",
            "upgrade_invoke_diff_slot",
            "deploy_close_same_slot",
            "deploy_close_diff_slot",
            "close_invoke_same_slot",
            "close_invoke_diff_slot",
            "close_redeploy_same_slot",
            "close_redeploy_diff_slot",
        ]
    );
    for entry in log.borrow().iter() {
        assert_eq!(entry.program_data, vec![0x7f, 0x45, 0x4c, 0x46, 0x02]);
        assert_eq!(entry.account_data, vec![0xde, 0xad, 0xbe, 0xef]);
    }
}

#[test]
fn every_call_receives_the_same_five_arguments() {
    let client = Connection { id: 1 };
    let shared = Arc::new(Connection { id: 2 });
    let payer = Keys { id: 3 };
    let program = vec![1, 2, 3];
    let account = vec![4, 5];
    let same = RefCell::new(0usize);
    let result: Result<(), String> =
        bpf_loader_ledger(&client, &shared, &payer, &program, &account, |call| {
            if std::ptr::eq(call.client, &client)
                && std::ptr::eq(call.arc_client, &shared)
                && std::ptr::eq(call.payer, &payer)
                && std::ptr::eq(call.program_data, &program)
                && std::ptr::eq(call.account_data, &account)
            {
                *same.borrow_mut() += 1;
            }
            Ok(())
        });
    assert_eq!(result, Ok(()));
    assert_eq!(*same.borrow(), 10);
    assert_eq!(program, vec![1, 2, 3]);
    assert_eq!(account, vec![4, 5]);
    assert_eq!(Arc::strong_count(&shared), 1);
}

#[test]
fn handles_are_handed_on_as_they_are() {
    let client = Connection { id: 7 };
    let shared = Arc::new(Connection { id: 8 });
    let payer = Keys { id: 9 };
    let program = vec![1];
    let account = vec![2];
    let log = RefCell::new(Vec::new());
    let result: Result<(), String> =
        bpf_loader_ledger(&client, &shared, &payer, &program, &account, |call| {
            record(&log, &call);
            Ok(())
        });
    assert_eq!(result, Ok(()));
    for entry in log.borrow().iter() {
        assert_eq!(entry.client, 7);
        assert_eq!(entry.arc_client, 8);
        assert_eq!(entry.payer, 9);
    }
}

#[test]
fn empty_buffers_are_not_turned_away() {
    let client = Connection { id: 1 };
    let shared = Arc::new(Connection { id: 1 });
    let payer = Keys { id: 1 };
    let program: Vec<u8> = Vec::new();
    let account: Vec<u8> = Vec::new();
    let log = RefCell::new(Vec::new());
    let result: Result<(), String> =
        bpf_loader_ledger(&client, &shared, &payer, &program, &account, |call| {
            record(&log, &call);
            Ok(())
        });
    assert_eq!(result, Ok(()));
    assert_eq!(log.borrow().len(), 10);
    for entry in log.borrow().iter() {
        assert!(entry.program_data.is_empty());
        assert!(entry.account_data.is_empty());
    }
}

#[test]
fn a_failing_scenario_is_reported_and_nothing_follows_it() {
    for failing in 0..10usize {
        let client = Connection { id: 1 };
        let shared = Arc::new(Connection { id: 1 });
        let payer = Keys { id: 1 };
        let program = vec![1, 2, 3];
        let account = vec![4, 5, 6];
        let log = RefCell::new(Vec::new());
        let result = bpf_loader_ledger(&client, &shared, &payer, &program, &account, |call| {
            record(&log, &call);
            if call.scenario.position() == failing {
                Err(format!("{} failed", call.scenario.name()))
            } else {
                Ok(())
            }
        });
        assert_eq!(result, Err(format!("{} failed", ORDER[failing].name())));
        assert_eq!(scenarios_of(&log), ORDER[..failing + 1].to_vec());
    }
}

#[test]
fn close_scenarios_do_not_run_after_a_failed_deploy() {
    let client = Connection { id: 1 };
    let shared = Arc::new(Connection { id: 1 });
    let payer = Keys { id: 1 };
    let program = vec![1];
    let account = vec![2];
    let log = RefCell::new(Vec::new());
    let result = bpf_loader_ledger(&client, &shared, &payer, &program, &account, |call| {
        record(&log, &call);
        match call.scenario {
            Scenario::DeployCloseSameSlot => Err(404u16),
            _ => Ok(()),
        }
    });
    assert_eq!(result, Err(404u16));
    assert_eq!(
        scenarios_of(&log),
        vec![
            Scenario::DeployInvokeSameSlot,
            Scenario::DeployInvokeDiffSlot,
            Scenario::UpgradeInvokeSameSlot,
            Scenario::UpgradeInvokeDiffSlot,
            Scenario::DeployCloseSameSlot,
        ]
    );
}

#[test]
fn the_error_comes_back_untouched() {
    #[derive(Debug, PartialEq)]
    struct NodeError {
        code: i64,
        text: String,
        data: Vec<u8>,
    }
    let client = Connection { id: 1 };
    let shared = Arc::new(Connection { id: 1 });
    let payer = Keys { id: 1 };
    let program = vec![1];
    let account = vec![2];
    let result = bpf_loader_ledger(&client, &shared, &payer, &program, &account, |call| {
        if call.scenario == Scenario::CloseRedeployDiffSlot {
            Err(NodeError { code: -32002, text: String::from("blockhash not found"), data: vec![1, 2] })
        } else {
            Ok(())
        }
    });
    assert_eq!(
        result,
        Err(NodeError { code: -32002, text: String::from("blockhash not found"), data: vec![1, 2] })
    );
}

#[test]
fn a_later_failure_does_not_hide_the_first() {
    let client = Connection { id: 1 };
    let shared = Arc::new(Connection { id: 1 });
    let payer = Keys { id: 1 };
    let program = vec![1];
    let account = vec![2];
    let calls = RefCell::new(0u32);
    let result = bpf_loader_ledger(&client, &shared, &payer, &program, &account, |call| {
        *calls.borrow_mut() += 1;
        if call.scenario.position() >= 2 {
            Err(call.scenario.position())
        } else {
            Ok(())
        }
    });
    assert_eq!(result, Err(2usize));
    assert_eq!(*calls.borrow(), 3);
}
