use unicorn_hat_hd::bus::{Bus, BusSettings, ConnectionError, Mode, SlaveSelect, Stage, TransmitError, CLOCK_SPEED};
use unicorn_hat_hd::hardware::{Action, Progress, UnicornHatHd, DEFAULT_BUS, DEFAULT_SLAVE_SELECT};
use unicorn_hat_hd::pixel::Pixel;

/// Runs one transfer against a bus that takes the first `accepts` writes and
/// fails on the next. Returns what was handed to the bus and the result.
fn transfer(hat: &UnicornHatHd, accepts: usize) -> (Vec<Vec<u8>>, Result<(), TransmitError>) {
    let mut seen: Vec<Vec<u8>> = Vec::new();
    let mut progress = Progress::Start;
    loop {
        match hat.display(progress) {
            Action::Write(stage, bytes) => {
                progress = if seen.len() < accepts { Progress::Written(stage) } else { Progress::Failed(stage) };
                seen.push(bytes);
            }
            Action::Done(result) => return (seen, result),
        }
    }
}

fn open_hat() -> UnicornHatHd {
    match UnicornHatHd::new(Bus::Spi0, SlaveSelect::Ss0, true) {
        Ok(hat) => hat,
        Err(e) => panic!("an open bus gives a driver, not {:?}", e),
    }
}

#[test]
fn panel_runs_at_nine_megahertz_in_mode_zero() {
    assert_eq!(CLOCK_SPEED, 9_000_000);
    let settings = BusSettings::for_panel(Bus::Spi1, SlaveSelect::Ss2);
    assert_eq!(
        settings,
        BusSettings { bus: Bus::Spi1, slave_select: SlaveSelect::Ss2, clock_speed: 9_000_000, mode: Mode::Mode0 }
    );
}

#[test]
fn new_on_an_open_bus_gives_a_black_panel() {
    let hat = open_hat();
    for y in 0..16 {
        for x in 0..16 {
            assert_eq!(hat.get_pixel(x, y), Pixel::new(0, 0, 0));
        }
    }
}

#[test]
fn new_on_a_closed_bus_returns_the_error() {
    let made = UnicornHatHd::new(Bus::Spi0, SlaveSelect::Ss0, false);
    match made {
        Err(e) => assert_eq!(e, ConnectionError { bus: Bus::Spi0, slave_select: SlaveSelect::Ss0 }),
        Ok(_) => panic!("a closed bus gives no driver"),
    }
    let other = UnicornHatHd::new(Bus::Spi6, SlaveSelect::Ss15, false);
    match other {
        Err(e) => assert_eq!(e, ConnectionError { bus: Bus::Spi6, slave_select: SlaveSelect::Ss15 }),
        Ok(_) => panic!("a closed bus gives no driver"),
    }
}

#[test]
fn default_uses_the_first_bus_and_line() {
    assert_eq!(DEFAULT_BUS, Bus::Spi0);
    assert_eq!(DEFAULT_SLAVE_SELECT, SlaveSelect::Ss0);
    let hat = UnicornHatHd::default(true);
    assert_eq!(hat.get_pixel(0, 0), Pixel::new(0, 0, 0));
    assert_eq!(hat.get_pixel(15, 15), Pixel::new(0, 0, 0));
}

#[test]
fn hardware_set_then_get() {
    let mut hat = open_hat();
    hat.set_pixel(4, 2, Pixel::new(11, 22, 33));
    assert_eq!(hat.get_pixel(4, 2), Pixel::new(11, 22, 33));
    assert_eq!(hat.get_pixel(2, 4), Pixel::new(0, 0, 0));
}

#[test]
fn hardware_clear_resets_the_buffer() {
    let mut hat = open_hat();
    hat.set_pixel(4, 2, Pixel::new(11, 22, 33));
    hat.set_pixel(0, 0, Pixel::new(1, 1, 1));
    hat.clear_pixels();
    for y in 0..16 {
        for x in 0..16 {
            assert_eq!(hat.get_pixel(x, y), Pixel::new(0, 0, 0));
        }
    }
}

#[test]
fn display_starts_with_the_command_byte() {
    let hat = open_hat();
    assert_eq!(hat.display(Progress::Start), Action::Write(Stage::Command, vec![0x72]));
}

#[test]
fn display_sends_the_frame_after_the_command() {
    let mut hat = open_hat();
    hat.set_pixel(0, 0, Pixel::new(1, 2, 3));
    let mut frame = vec![0u8; 768];
    frame[0] = 1;
    frame[1] = 2;
    frame[2] = 3;
    assert_eq!(hat.display(Progress::Written(Stage::Command)), Action::Write(Stage::Frame, frame));
}

#[test]
fn display_is_done_after_the_frame() {
    let hat = open_hat();
    assert_eq!(hat.display(Progress::Written(Stage::Frame)), Action::Done(Ok(())));
}

#[test]
fn display_gives_up_when_the_command_write_fails() {
    let hat = open_hat();
    assert_eq!(
        hat.display(Progress::Failed(Stage::Command)),
        Action::Done(Err(TransmitError { stage: Stage::Command }))
    );
}

#[test]
fn display_gives_up_when_the_frame_write_fails() {
    let hat = open_hat();
    assert_eq!(
        hat.display(Progress::Failed(Stage::Frame)),
        Action::Done(Err(TransmitError { stage: Stage::Frame }))
    );
}

#[test]
fn transfer_issues_command_then_frame_for_top_left_pixel() {
    let mut hat = open_hat();
    hat.set_pixel(0, 0, Pixel::new(1, 2, 3));
    let (writes, result) = transfer(&hat, 2);
    assert_eq!(result, Ok(()));
    assert_eq!(writes.len(), 2);
    assert_eq!(writes[0], vec![0x72u8]);
    assert_eq!(writes[1].len(), 768);
    assert_eq!(&writes[1][0..3], &[1u8, 2, 3]);
    assert_eq!(&writes[1][3..], &[0u8; 765][..]);
}

#[test]
fn transfer_orders_the_frame_by_rows() {
    let mut hat = open_hat();
    hat.set_pixel(1, 0, Pixel::new(10, 20, 30));
    let (writes, result) = transfer(&hat, 2);
    assert_eq!(result, Ok(()));
    assert_eq!(writes.len(), 2);
    let mut expected = vec![0u8; 768];
    expected[3] = 10;
    expected[4] = 20;
    expected[5] = 30;
    assert_eq!(writes[1], expected);
}

#[test]
fn transfer_stops_after_a_failed_command() {
    let hat = open_hat();
    let (writes, result) = transfer(&hat, 0);
    assert_eq!(result, Err(TransmitError { stage: Stage::Command }));
    assert_eq!(writes, vec![vec![0x72u8]]);
}

#[test]
fn transfer_reports_a_failed_frame() {
    let hat = open_hat();
    let (writes, result) = transfer(&hat, 1);
    assert_eq!(result, Err(TransmitError { stage: Stage::Frame }));
    assert_eq!(writes.len(), 2);
    assert_eq!(writes[0], vec![0x72u8]);
    assert_eq!(writes[1], vec![0u8; 768]);
}

#[test]
fn transfer_sends_the_whole_buffer_every_time() {
    let mut hat = open_hat();
    hat.set_pixel(7, 7, Pixel::new(5, 6, 7));
    let (first, _) = transfer(&hat, 2);
    let (second, _) = transfer(&hat, 2);
    assert_eq!(first, second);
    assert_eq!(second[1].len(), 768);
    assert_eq!(&second[1][357..360], &[5u8, 6, 7]);
}

#[test]
fn display_leaves_the_buffer_alone() {
    let mut hat = open_hat();
    hat.set_pixel(9, 3, Pixel::new(90, 30, 1));
    let _ = transfer(&hat, 2);
    assert_eq!(hat.get_pixel(9, 3), Pixel::new(90, 30, 1));
    assert_eq!(hat.get_pixel(3, 9), Pixel::new(0, 0, 0));
}
