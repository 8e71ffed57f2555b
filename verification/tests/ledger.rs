use trading_utils::{
    BrokerErrorKind, Currency, Deposit, MarketValue, Order, OrderData, OrderMoment, OrderType,
    OrderValidity, Position, PositionType, Price, StockExchange, StopLoss, TakeProfit, Timestamp,
};

const UNIT: i64 = 1_000_000;

fn record(id: u64, pieces: u64) -> OrderData {
    OrderData::new(
        id,
        StockExchange::Xetra,
        pieces,
        OrderType::LimitOrder(Price(41 * UNIT)),
        PositionType::LongCall,
        TakeProfit::Absolute(Price(50 * UNIT)),
        StopLoss::Trailing(Price(2 * UNIT)),
        OrderMoment::Instant,
        OrderValidity::OneDay,
    )
}

/// A ledger with the given cash and no orders, made through the ledger's own
/// operations: a position opened for nothing and closed for `cash`.
fn funded(cash: i64) -> Deposit {
    let mut deposit = Deposit::empty(1, Currency::Euro);
    deposit.place_order(Order::Normal(record(1_000, 1)));
    deposit.execute_order(1_000, 1_000, Price(0), Timestamp(0)).unwrap();
    deposit.close_position(1_000, Price(cash)).unwrap();
    deposit
}

#[test]
fn empty_ledger_holds_nothing() {
    let deposit = Deposit::empty(9, Currency::UsDollar);
    assert_eq!(deposit.id(), 9);
    assert_eq!(*deposit.currency(), Currency::UsDollar);
    assert_eq!(*deposit.cash(), Price(0));
    assert!(deposit.orders().is_empty());
    assert!(deposit.positions().is_empty());
    assert!(!deposit.order_exists(1));
    assert!(!deposit.position_exists(1));
}

#[test]
fn executing_an_order_debits_cash_and_opens_a_position() {
    let mut deposit = funded(100 * UNIT);
    deposit.place_order(Order::Normal(record(7, 3)));
    assert!(deposit.order_exists(7));

    let executed = deposit.execute_order(7, 70, Price(40 * UNIT), Timestamp(1_000)).unwrap();
    assert_eq!(executed, Order::Normal(record(7, 3)));
    assert_eq!(*deposit.cash(), Price(60 * UNIT));
    assert!(!deposit.order_exists(7));
    assert!(deposit.orders().is_empty());
    assert_eq!(deposit.positions().len(), 1);
    let position = &deposit.positions()[0];
    assert_eq!(
        *position,
        Position::from_order_data(70, Timestamp(1_000), Price(40 * UNIT), &record(7, 3))
    );
    assert_eq!(position.id(), 70);
    assert_eq!(*position.time(), Timestamp(1_000));
    assert_eq!(*position.buy_price(), Price(40 * UNIT));
    assert_eq!(position.pieces(), 3);
    assert_eq!(*position.stock_exchange(), StockExchange::Xetra);
    assert_eq!(*position.position_type(), PositionType::LongCall);
    assert_eq!(*position.take_profit(), TakeProfit::Absolute(Price(50 * UNIT)));
    assert_eq!(*position.stop_loss(), StopLoss::Trailing(Price(2 * UNIT)));

    let again = deposit.execute_order(7, 71, Price(40 * UNIT), Timestamp(2_000));
    assert_eq!(again, Err(BrokerErrorKind::NoSuchOrder));
    assert_eq!(*deposit.cash(), Price(60 * UNIT));
    assert_eq!(deposit.positions().len(), 1);
}

#[test]
fn closing_a_position_credits_cash_and_removes_one_position() {
    let mut deposit = funded(0);
    for id in [1u64, 2, 3] {
        deposit.place_order(Order::Normal(record(id, id)));
        deposit.execute_order(id, 10 * id, Price(0), Timestamp(5)).unwrap();
    }
    assert_eq!(deposit.positions().len(), 3);

    let closed = deposit.close_position(10, Price(25 * UNIT + 500_000)).unwrap();
    assert_eq!(closed.id(), 10);
    assert_eq!(*deposit.cash(), Price(25 * UNIT + 500_000));
    assert_eq!(deposit.positions().len(), 2);
    // the last position took the place of the closed one
    assert_eq!(deposit.positions()[0].id(), 30);
    assert_eq!(deposit.positions()[1].id(), 20);
    assert!(!deposit.position_exists(10));
    assert!(deposit.position_exists(20));
}

#[test]
fn closing_an_unknown_position_changes_nothing() {
    let mut deposit = funded(12 * UNIT);
    deposit.place_order(Order::Normal(record(5, 1)));
    deposit.execute_order(5, 50, Price(2 * UNIT), Timestamp(5)).unwrap();
    let before: Vec<Position> = deposit.positions().clone();

    assert_eq!(deposit.close_position(51, Price(99 * UNIT)), Err(BrokerErrorKind::NoSuchPosition));
    assert_eq!(*deposit.cash(), Price(10 * UNIT));
    assert_eq!(*deposit.positions(), before);
    assert!(deposit.get_position(51).is_none());
    assert_eq!(deposit.get_position(50).unwrap().id(), 50);
}

#[test]
fn deleting_an_order_hands_it_out() {
    let mut deposit = Deposit::empty(1, Currency::Euro);
    deposit.place_order(Order::Normal(record(1, 1)));
    deposit.place_order(Order::AllOrNone(vec![record(2, 1), record(3, 1)]));
    deposit.place_order(Order::ImmediateOrCancel(record(4, 1)));

    assert_eq!(deposit.get_order(3).unwrap(), &Order::AllOrNone(vec![record(2, 1), record(3, 1)]));
    let deleted = deposit.delete_order(1).unwrap();
    assert_eq!(deleted, Order::Normal(record(1, 1)));
    assert_eq!(deposit.orders().len(), 2);
    assert_eq!(deposit.orders()[0], Order::ImmediateOrCancel(record(4, 1)));
    assert_eq!(deposit.delete_order(1), Err(BrokerErrorKind::NoSuchOrder));
    assert_eq!(deposit.orders().len(), 2);
    assert_eq!(*deposit.cash(), Price(0));
}

#[test]
fn executing_one_record_of_several_takes_the_whole_order() {
    let mut deposit = funded(10 * UNIT);
    deposit.place_order(Order::OneCancelsTheOther(vec![record(2, 5), record(3, 8)]));
    let executed = deposit.execute_order(3, 30, Price(4 * UNIT), Timestamp(9)).unwrap();
    assert_eq!(executed, Order::OneCancelsTheOther(vec![record(2, 5), record(3, 8)]));
    assert!(!deposit.order_exists(2));
    assert_eq!(deposit.positions()[0].pieces(), 8);
    assert_eq!(*deposit.cash(), Price(6 * UNIT));
}

#[test]
fn editing_an_order_changes_it_in_place() {
    let mut deposit = Deposit::empty(1, Currency::Euro);
    deposit.place_order(Order::Normal(record(1, 1)));
    deposit.place_order(Order::Normal(record(2, 1)));
    let done = deposit.edit_order(1, |order: &mut Order| {
        order.get_mut(1).unwrap().update_validity(OrderValidity::Forever);
    });
    assert_eq!(done, Ok(()));
    assert_eq!(*deposit.orders()[0].get(1).unwrap().validity(), OrderValidity::Forever);
    assert_eq!(*deposit.orders()[1].get(2).unwrap().validity(), OrderValidity::OneDay);
    let missing = deposit.edit_order(3, |_order: &mut Order| {});
    assert_eq!(missing, Err(BrokerErrorKind::NoSuchOrder));
}

#[test]
fn cash_that_cannot_be_held_refuses_the_booking() {
    let mut deposit = funded(i64::MAX);
    deposit.place_order(Order::Normal(record(1, 1)));
    deposit.execute_order(1, 10, Price(0), Timestamp(5)).unwrap();
    assert_eq!(deposit.close_position(10, Price(1)), Err(BrokerErrorKind::Other));
    assert_eq!(*deposit.cash(), Price(i64::MAX));
    assert!(deposit.position_exists(10));

    let mut deposit = funded(i64::MIN + 5);
    deposit.place_order(Order::Normal(record(1, 1)));
    assert_eq!(deposit.execute_order(1, 10, Price(6), Timestamp(5)), Err(BrokerErrorKind::Other));
    assert!(deposit.order_exists(1));
    assert!(deposit.positions().is_empty());
    assert_eq!(*deposit.cash(), Price(i64::MIN + 5));
}

#[test]
fn orders_find_their_records() {
    let single = Order::Normal(record(7, 1));
    assert!(single.has_id(7));
    assert!(!single.has_id(8));
    assert_eq!(single.get(7), Some(&record(7, 1)));
    assert_eq!(single.get(8), None);

    let mut several = Order::FillOrKill(vec![record(1, 1), record(2, 2), record(2, 3)]);
    assert!(several.has_id(2));
    assert!(!several.has_id(3));
    assert_eq!(several.get(2).unwrap().pieces(), 2);
    several.get_mut(2).unwrap().update_take_profit(TakeProfit::Unset);
    several.get_mut(2).unwrap().update_stop_loss(StopLoss::Unset);
    several.get_mut(1).unwrap().update_moment(OrderMoment::Planed(Timestamp(77)));
    match &several {
        Order::FillOrKill(records) => {
            assert_eq!(*records[1].take_profit(), TakeProfit::Unset);
            assert_eq!(*records[1].stop_loss(), StopLoss::Unset);
            assert_eq!(*records[2].take_profit(), TakeProfit::Absolute(Price(50 * UNIT)));
            assert_eq!(*records[0].moment(), OrderMoment::Planed(Timestamp(77)));
            assert_eq!(records[0].id(), 1);
            assert_eq!(*records[0].order_type(), OrderType::LimitOrder(Price(41 * UNIT)));
            assert_eq!(*records[0].stock_exchange(), StockExchange::Xetra);
            assert_eq!(*records[0].position_type(), PositionType::LongCall);
        }
        _ => panic!("the order changed its variant"),
    }
    assert!(several.get_mut(9).is_none());
}

#[test]
fn positions_take_new_policies() {
    let mut position = Position::from_order_data(1, Timestamp(3), Price(UNIT), &record(7, 2));
    assert!(position.has_id(1));
    assert!(!position.has_id(7));
    position.update_take_profit(TakeProfit::Relative(Price(3 * UNIT)));
    position.update_stop_loss(StopLoss::Absolute(Price(UNIT / 2)));
    assert_eq!(*position.take_profit(), TakeProfit::Relative(Price(3 * UNIT)));
    assert_eq!(*position.stop_loss(), StopLoss::Absolute(Price(UNIT / 2)));
    assert_eq!(position.pieces(), 2);
    assert_eq!(Price::zero(), Price(0));
}
