use button_consumer::broker::{
    connect_rabbitmq, create_rabbitmq_consumer, following_step, setup_consumer, Acquisition,
    Attempt, Order, Pending, Report, SetupStep, Stage,
};

fn text(s: &str) -> String {
    s.to_string()
}

fn failed(why: &str) -> Report {
    Report::Failed(text(why))
}

/// Feeds the reports in order, and gives the orders that were issued and the
/// number of failures with which the consumer became ready, if it did.
fn run(url: &str, reports: Vec<Report>) -> (Vec<Order>, Option<u64>) {
    let mut orders = Vec::new();
    let mut attempt = create_rabbitmq_consumer(url);
    let mut reports = reports.into_iter();
    loop {
        let acquisition: Acquisition = match attempt {
            Attempt::Go(acquisition, order) => {
                orders.push(order);
                acquisition
            }
            Attempt::Ready { failures } => return (orders, Some(failures)),
        };
        match reports.next() {
            Some(report) => attempt = acquisition.advance(report),
            None => return (orders, None),
        }
    }
}

fn connect() -> Order {
    Order::Connect { url: text("amqp://broker"), name: text("button_consumer") }
}

fn setup() -> Vec<Order> {
    vec![
        Order::OpenChannel,
        Order::LimitPrefetch { count: 1 },
        Order::DeclareQueue { queue: text("button_templates"), passive: true, durable: true },
        Order::Subscribe {
            queue: text("button_templates"),
            tag: text("button-consumer"),
            manual_ack: true,
        },
    ]
}

fn backoffs(orders: &[Order]) -> Vec<&Order> {
    orders.iter().filter(|o| matches!(o, Order::BackOff { .. })).collect()
}

#[test]
fn the_connection_carries_the_name_of_the_worker() {
    assert_eq!(connect_rabbitmq("amqp://broker"), connect());
}

#[test]
fn the_setup_has_four_steps_in_order() {
    let steps = [
        SetupStep::OpenChannel,
        SetupStep::LimitPrefetch,
        SetupStep::DeclareQueue,
        SetupStep::Subscribe,
    ];
    let orders: Vec<Order> = steps.iter().map(|s| setup_consumer(*s)).collect();
    assert_eq!(orders, setup());
    assert_eq!(following_step(Stage::Connecting), Some(Stage::SettingUp(SetupStep::OpenChannel)));
    assert_eq!(
        following_step(Stage::SettingUp(SetupStep::OpenChannel)),
        Some(Stage::SettingUp(SetupStep::LimitPrefetch))
    );
    assert_eq!(
        following_step(Stage::SettingUp(SetupStep::LimitPrefetch)),
        Some(Stage::SettingUp(SetupStep::DeclareQueue))
    );
    assert_eq!(
        following_step(Stage::SettingUp(SetupStep::DeclareQueue)),
        Some(Stage::SettingUp(SetupStep::Subscribe))
    );
    assert_eq!(following_step(Stage::SettingUp(SetupStep::Subscribe)), None);
}

#[test]
fn a_broker_that_answers_gives_a_consumer_at_once() {
    let (orders, ready) = run("amqp://broker", vec![Report::Succeeded; 5]);
    let mut expected = vec![connect()];
    expected.extend(setup());
    assert_eq!(orders, expected);
    assert_eq!(ready, Some(0));
}

#[test]
fn three_failed_connections_are_followed_by_three_pauses_and_a_consumer() {
    let mut reports = Vec::new();
    for attempt in 1..=3 {
        reports.push(failed(&format!("refused {}", attempt)));
        reports.push(Report::Succeeded);
    }
    reports.extend(vec![Report::Succeeded; 5]);
    let (orders, ready) = run("amqp://broker", reports);
    assert_eq!(ready, Some(3));
    let pauses = backoffs(&orders);
    assert_eq!(pauses.len(), 3);
    for (at, pause) in pauses.iter().enumerate() {
        assert_eq!(
            **pause,
            Order::BackOff {
                step: Stage::Connecting,
                detail: format!("refused {}", at + 1),
                seconds: 5,
            }
        );
    }
    let mut expected = Vec::new();
    for attempt in 1..=3 {
        expected.push(connect());
        expected.push(Order::BackOff {
            step: Stage::Connecting,
            detail: format!("refused {}", attempt),
            seconds: 5,
        });
    }
    expected.push(connect());
    expected.extend(setup());
    assert_eq!(orders, expected);
}

#[test]
fn a_failed_setup_starts_over_with_the_connection() {
    let reports = vec![
        Report::Succeeded,
        Report::Succeeded,
        Report::Succeeded,
        failed("no such queue"),
        Report::Succeeded,
    ];
    let (orders, ready) = run("amqp://broker", reports);
    assert_eq!(ready, None);
    assert_eq!(orders.len(), 6);
    assert_eq!(
        orders[4],
        Order::BackOff {
            step: Stage::SettingUp(SetupStep::DeclareQueue),
            detail: text("no such queue"),
            seconds: 5,
        }
    );
    assert_eq!(orders[5], connect());
}

#[test]
fn a_failed_subscription_is_no_consumer() {
    let mut reports = vec![Report::Succeeded; 4];
    reports.push(failed("denied"));
    let (orders, ready) = run("amqp://broker", reports);
    assert_eq!(ready, None);
    assert_eq!(
        orders.last(),
        Some(&Order::BackOff {
            step: Stage::SettingUp(SetupStep::Subscribe),
            detail: text("denied"),
            seconds: 5,
        })
    );
}

#[test]
fn the_pause_ends_whatever_is_reported_of_it() {
    let (orders, _) = run("amqp://broker", vec![failed("x"), failed("interrupted")]);
    assert_eq!(orders.len(), 3);
    assert_eq!(orders[2], connect());
    let (orders, ready) = run("amqp://broker", vec![failed("x"), failed("y"), failed("z")]);
    assert_eq!(ready, None);
    assert_eq!(backoffs(&orders).len(), 2);
}

#[test]
fn the_count_of_failures_does_not_overflow() {
    let acquisition = Acquisition {
        url: text("amqp://broker"),
        pending: Pending::Step(Stage::Connecting),
        failures: u64::MAX,
    };
    match acquisition.advance(failed("again")) {
        Attempt::Go(next, Order::BackOff { seconds, .. }) => {
            assert_eq!(next.failures, u64::MAX);
            assert_eq!(next.pending, Pending::Pause);
            assert_eq!(seconds, 5);
        }
        other => panic!("unexpected attempt {:?}", other),
    }
}
