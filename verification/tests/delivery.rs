use senddisimages::delivery::{
    batch_count, delivery_units, Delivery, DISCORD_MAX_ATTACHMENTS_PER_MESSAGE,
};
use senddisimages::report::{report, Intake};

fn assets(count: usize) -> Vec<String> {
    (0..count).map(|i| format!("/tmp/picture-{}.jpg", i)).collect()
}

fn drive(mut delivery: Delivery, answers: Vec<Result<String, String>>) -> (Delivery, Vec<Vec<String>>) {
    let mut handed_out = Vec::new();
    for answer in answers {
        match delivery.next_unit() {
            Some(unit) => handed_out.push(unit.clone()),
            None => break,
        }
        delivery = delivery.record(answer);
    }
    (delivery, handed_out)
}

#[test]
fn attachment_ceiling_is_ten() {
    assert_eq!(DISCORD_MAX_ATTACHMENTS_PER_MESSAGE, 10);
}

#[test]
fn batch_count_is_the_ceiling_of_a_tenth() {
    assert_eq!(batch_count(0, false), 0);
    assert_eq!(batch_count(1, false), 1);
    assert_eq!(batch_count(9, false), 1);
    assert_eq!(batch_count(10, false), 1);
    assert_eq!(batch_count(11, false), 2);
    assert_eq!(batch_count(20, false), 2);
    assert_eq!(batch_count(23, false), 3);
    assert_eq!(batch_count(usize::MAX, false), usize::MAX / 10 + 1);
}

#[test]
fn batch_count_of_individual_sends_is_the_asset_count() {
    assert_eq!(batch_count(0, true), 0);
    assert_eq!(batch_count(1, true), 1);
    assert_eq!(batch_count(23, true), 23);
    assert_eq!(batch_count(usize::MAX, true), usize::MAX);
}

#[test]
fn scenario_twenty_three_assets_make_three_units() {
    let all = assets(23);
    let units = delivery_units(&all, false);
    assert_eq!(units.len(), 3);
    assert_eq!(units[0], all[0..10].to_vec());
    assert_eq!(units[1], all[10..20].to_vec());
    assert_eq!(units[2], all[20..23].to_vec());
    assert_eq!(batch_count(23, false), 3);
}

#[test]
fn batch_count_matches_the_units() {
    for count in 0..45 {
        for individually in [false, true] {
            let all = assets(count);
            let units = delivery_units(&all, individually);
            assert_eq!(units.len(), batch_count(count, individually));
            assert_eq!(units.concat(), all);
            for (index, unit) in units.iter().enumerate() {
                assert!(!unit.is_empty());
                if individually {
                    assert_eq!(unit.len(), 1);
                } else if index + 1 < units.len() {
                    assert_eq!(unit.len(), 10);
                } else {
                    assert_eq!(unit.len(), if count % 10 == 0 { 10 } else { count % 10 });
                }
            }
        }
    }
}

#[test]
fn individual_sends_are_singletons_in_source_order() {
    let all = assets(4);
    let units = delivery_units(&all, true);
    assert_eq!(
        units,
        vec![vec![all[0].clone()], vec![all[1].clone()], vec![all[2].clone()], vec![all[3].clone()]]
    );
}

#[test]
fn no_assets_make_no_units() {
    assert_eq!(delivery_units(&Vec::new(), false), Vec::<Vec<String>>::new());
    assert_eq!(delivery_units(&Vec::new(), true), Vec::<Vec<String>>::new());
}

#[test]
fn scenario_single_asset_is_one_unit_and_one_message() {
    let all = assets(1);
    let (delivery, handed_out) = drive(Delivery::new(all.clone(), false), vec![Ok("m-1".to_string())]);
    assert_eq!(handed_out, vec![all]);
    assert!(delivery.next_unit().is_none());
    assert!(delivery.is_complete());
    let response = report(delivery, Vec::new(), Vec::new());
    assert!(response.success);
    assert_eq!(response.message_ids, vec!["m-1".to_string()]);
    assert_eq!(response.batches_sent, 1);
    assert_eq!(response.total_images, 1);
}

#[test]
fn message_identifiers_keep_the_order_of_the_units() {
    let all = assets(23);
    let answers = vec![Ok("first".to_string()), Ok("second".to_string()), Ok("third".to_string())];
    let (delivery, handed_out) = drive(Delivery::new(all.clone(), false), answers);
    assert_eq!(handed_out, vec![all[0..10].to_vec(), all[10..20].to_vec(), all[20..23].to_vec()]);
    assert_eq!(
        delivery.message_ids(),
        &vec!["first".to_string(), "second".to_string(), "third".to_string()]
    );
    assert_eq!(delivery.batches_planned(), 3);
    assert_eq!(delivery.batches_attempted(), 3);
    assert_eq!(delivery.batches_sent(), 3);
    assert_eq!(delivery.images_sent(), 23);
    assert!(delivery.is_complete());
    assert_eq!(delivery.failure(), &None);
    let response = report(delivery, vec!["s".to_string()], vec!["e".to_string()]);
    assert!(response.success);
    assert_eq!(response.batches_sent, 3);
    assert_eq!(response.total_images, 23);
    assert_eq!(response.skipped, vec!["s".to_string()]);
    assert_eq!(response.errors, vec!["e".to_string()]);
}

#[test]
fn scenario_failure_on_the_third_of_five_units() {
    let all = assets(5);
    let answers = vec![
        Ok("m-1".to_string()),
        Ok("m-2".to_string()),
        Err("rate limited".to_string()),
        Ok("m-4".to_string()),
        Ok("m-5".to_string()),
    ];
    let (delivery, handed_out) = drive(Delivery::new(all.clone(), true), answers);
    assert_eq!(
        handed_out,
        vec![vec![all[0].clone()], vec![all[1].clone()], vec![all[2].clone()]]
    );
    assert!(delivery.next_unit().is_none());
    assert!(!delivery.is_complete());
    assert_eq!(delivery.failure(), &Some("rate limited".to_string()));
    assert_eq!(delivery.message_ids(), &vec!["m-1".to_string(), "m-2".to_string()]);
    assert_eq!(delivery.batches_planned(), 5);
    assert_eq!(delivery.batches_attempted(), 3);
    assert_eq!(delivery.batches_sent(), 2);
    assert_eq!(delivery.images_sent(), 2);

    let delivery = delivery.record(Ok("late".to_string()));
    assert_eq!(delivery.message_ids(), &vec!["m-1".to_string(), "m-2".to_string()]);
    assert_eq!(delivery.failure(), &Some("rate limited".to_string()));

    let response = report(delivery, Vec::new(), Vec::new());
    assert!(!response.success);
    assert_eq!(response.message_ids, vec!["m-1".to_string(), "m-2".to_string()]);
    assert_eq!(response.batches_sent, 2);
    assert_eq!(response.total_images, 2);
}

#[test]
fn failure_of_a_batch_keeps_the_batches_before_it() {
    let all = assets(23);
    let answers = vec![Ok("m-1".to_string()), Err("gone".to_string()), Ok("m-3".to_string())];
    let (delivery, handed_out) = drive(Delivery::new(all.clone(), false), answers);
    assert_eq!(handed_out.len(), 2);
    assert_eq!(delivery.batches_sent(), 1);
    assert_eq!(delivery.images_sent(), 10);
    let response = report(delivery, Vec::new(), Vec::new());
    assert!(!response.success);
    assert_eq!(response.message_ids, vec!["m-1".to_string()]);
    assert_eq!(response.total_images, 10);
}

#[test]
fn failure_of_the_first_unit_delivers_nothing() {
    let (delivery, handed_out) = drive(Delivery::new(assets(3), false), vec![Err("denied".to_string())]);
    assert_eq!(handed_out.len(), 1);
    let response = report(delivery, Vec::new(), Vec::new());
    assert!(!response.success);
    assert!(response.message_ids.is_empty());
    assert_eq!(response.batches_sent, 0);
    assert_eq!(response.total_images, 0);
}

#[test]
fn attempts_count_the_failed_unit() {
    let delivery = Delivery::new(assets(12), false);
    assert_eq!(delivery.batches_attempted(), 0);
    let delivery = delivery.record(Ok("m-1".to_string()));
    assert_eq!(delivery.batches_attempted(), 1);
    let delivery = delivery.record(Err("gone".to_string()));
    assert_eq!(delivery.batches_attempted(), 2);
    assert_eq!(delivery.batches_sent(), 1);
    let delivery = delivery.record(Err("again".to_string()));
    assert_eq!(delivery.batches_attempted(), 2);
    let first = Delivery::new(assets(1), true).record(Err("denied".to_string()));
    assert_eq!(first.batches_attempted(), 1);
    assert_eq!(first.batches_sent(), 0);
}

#[test]
fn delivery_in_progress_is_not_complete() {
    let (delivery, _) = drive(Delivery::new(assets(12), false), vec![Ok("m-1".to_string())]);
    assert!(!delivery.is_complete());
    assert_eq!(delivery.next_unit().map(|unit| unit.len()), Some(2));
    assert_eq!(delivery.images_sent(), 10);
    let ids = delivery.into_message_ids();
    assert_eq!(ids, vec!["m-1".to_string()]);
}

#[test]
fn delivery_of_nothing_reports_no_success() {
    let intake = Intake::new();
    let delivery = Delivery::new(intake.ready, false);
    assert!(delivery.next_unit().is_none());
    assert!(!delivery.is_complete());
    let delivery = delivery.record(Ok("stray".to_string()));
    let response = report(delivery, intake.skipped, intake.errors);
    assert!(!response.success);
    assert!(response.message_ids.is_empty());
    assert_eq!(response.batches_sent, 0);
    assert_eq!(response.total_images, 0);
}
