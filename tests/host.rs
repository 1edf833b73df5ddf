use std::cell::{Cell, RefCell};
use std::rc::Rc;
use std::sync::atomic::{AtomicBool, Ordering};
use std::sync::mpsc::{channel, Sender};
use std::sync::{Arc, Mutex};
use std::task::{Wake, Waker};
use std::time::{Duration, SystemTime};

use usrs::backend::{Backend, BackendDevice, ReadBuffer, WriteBuffer};
use usrs::device::{future_after_submission, truncate_to_read};
use usrs::futures::UsbFuture;
use usrs::host::{filter_devices, first_device};
use usrs::futures::PollState;
use usrs::request::{standard_in_from_device, DescriptorType, StandardDeviceRequest};
use usrs::{create_read_buffer, DeviceInformation, DeviceSelector, Error, Host, UsbResult};

const DEVICE_DESCRIPTOR: [u8; 18] = [
    18, 1, 0x00, 0x02, 0, 0, 0, 64, 0x50, 0x1d, 0x5c, 0x61, 0x00, 0x01, 1, 2, 3, 1,
];

struct FixtureDevice {
    location: u64,
}

impl BackendDevice for FixtureDevice {}

/// A backend reporting a fixed set of devices, counting the transfers that reach it.
struct Fixture {
    devices: Vec<(u16, u16, Option<&'static str>, u64)>,
    transfers: Cell<usize>,
    pending: RefCell<Vec<(Box<dyn FnOnce(UsbResult<usize>)>, usize)>>,
}

impl Fixture {
    fn new() -> Fixture {
        Fixture {
            devices: vec![
                (0x1d6b, 0x0002, None, 0x1000),
                (0x1d50, 0x6089, Some("HACKRF"), 0x2000),
                (0x1d50, 0x615c, Some("LUNA"), 0x3000),
                (0x046d, 0xc52b, None, 0x4000),
            ],
            transfers: Cell::new(0),
            pending: RefCell::new(Vec::new()),
        }
    }
}

impl Fixture {
    /// Delivers every outstanding completion, as the event loop would; returns how many.
    fn deliver(&self) -> usize {
        let pending: Vec<_> = self.pending.borrow_mut().drain(..).collect();
        let count = pending.len();
        for (callback, length) in pending {
            callback(Ok(length));
        }
        count
    }
}

impl Backend for Fixture {
    type DeviceData = FixtureDevice;

    fn get_devices(&self) -> UsbResult<Vec<DeviceInformation>> {
        Ok(self
            .devices
            .iter()
            .map(|(vid, pid, serial, location)| {
                let mut info = DeviceInformation::new(*vid, *pid, serial.map(String::from), None, None);
                info.backend_numeric_location = Some(*location);
                info
            })
            .collect())
    }

    fn open(&self, information: &DeviceInformation) -> UsbResult<FixtureDevice> {
        match information.backend_numeric_location {
            Some(location) if self.devices.iter().any(|d| d.3 == location) => {
                Ok(FixtureDevice { location })
            }
            _ => Err(Error::DeviceNotFound),
        }
    }

    fn release_kernel_driver(&self, _device: &mut FixtureDevice, _interface: u8) -> UsbResult<()> {
        Err(Error::Unsupported)
    }

    fn claim_interface(&self, _device: &mut FixtureDevice, interface: u8) -> UsbResult<()> {
        if interface == 0 { Ok(()) } else { Err(Error::InvalidArgument) }
    }

    fn unclaim_interface(&self, _device: &mut FixtureDevice, _interface: u8) -> UsbResult<()> {
        Ok(())
    }

    fn active_configuration(&self, _device: &FixtureDevice) -> UsbResult<u8> {
        Ok(1)
    }

    fn set_active_configuration(&self, _device: &FixtureDevice, _index: u8) -> UsbResult<()> {
        Ok(())
    }

    fn reset_device(&self, _device: &FixtureDevice) -> UsbResult<()> {
        Ok(())
    }

    fn clear_stall(&self, _device: &FixtureDevice, _address: u8) -> UsbResult<()> {
        Ok(())
    }

    fn set_alternate_setting(&self, _device: &FixtureDevice, _i: u8, _s: u8) -> UsbResult<()> {
        Ok(())
    }

    fn current_bus_frame(&self, _device: &FixtureDevice) -> UsbResult<(u64, SystemTime)> {
        Err(Error::Unsupported)
    }

    fn control_read(
        &self,
        device: &FixtureDevice,
        request_type: u8,
        request_number: u8,
        value: u16,
        index: u16,
        target: &mut [u8],
        _timeout: Option<Duration>,
    ) -> UsbResult<usize> {
        self.transfers.set(self.transfers.get() + 1);
        if device.location == 0x3000 && request_type == 0x80 && request_number == 6 && value == 0x0100 && index == 0 {
            let n = target.len().min(DEVICE_DESCRIPTOR.len());
            target[..n].copy_from_slice(&DEVICE_DESCRIPTOR[..n]);
            Ok(n)
        } else {
            Err(Error::Stalled)
        }
    }

    fn control_read_nonblocking<F: FnOnce(UsbResult<usize>) + Send + 'static>(
        &self,
        _device: &FixtureDevice,
        _request_type: u8,
        _request_number: u8,
        _value: u16,
        _index: u16,
        _target: ReadBuffer,
        callback: F,
        _timeout: Option<Duration>,
    ) -> UsbResult<()> {
        self.transfers.set(self.transfers.get() + 1);
        self.pending.borrow_mut().push((Box::new(callback), 0));
        Ok(())
    }

    fn control_write(
        &self,
        _device: &FixtureDevice,
        _request_type: u8,
        _request_number: u8,
        _value: u16,
        _index: u16,
        _data: &[u8],
        _timeout: Option<Duration>,
    ) -> UsbResult<()> {
        self.transfers.set(self.transfers.get() + 1);
        Ok(())
    }

    fn control_write_nonblocking<F: FnOnce(UsbResult<usize>) + Send + 'static>(
        &self,
        _device: &FixtureDevice,
        _request_type: u8,
        _request_number: u8,
        _value: u16,
        _index: u16,
        data: WriteBuffer,
        callback: F,
        _timeout: Option<Duration>,
    ) -> UsbResult<()> {
        self.transfers.set(self.transfers.get() + 1);
        let length = data.len();
        self.pending.borrow_mut().push((Box::new(callback), length));
        Ok(())
    }

    fn read(&self, _device: &FixtureDevice, endpoint: u8, buffer: &mut [u8], _timeout: Option<Duration>) -> UsbResult<usize> {
        self.transfers.set(self.transfers.get() + 1);
        if endpoint != 1 {
            return Err(Error::InvalidEndpoint);
        }
        let n = buffer.len().min(4);
        for (i, b) in buffer[..n].iter_mut().enumerate() {
            *b = i as u8 + 10;
        }
        Ok(n)
    }

    fn write(&self, _device: &FixtureDevice, _endpoint: u8, _data: &[u8], _timeout: Option<Duration>) -> UsbResult<()> {
        self.transfers.set(self.transfers.get() + 1);
        Ok(())
    }

    fn read_nonblocking<F: FnOnce(UsbResult<usize>) + Send + 'static>(
        &self,
        _device: &FixtureDevice,
        _endpoint: u8,
        _buffer: ReadBuffer,
        callback: F,
        _timeout: Option<Duration>,
    ) -> UsbResult<()> {
        self.transfers.set(self.transfers.get() + 1);
        self.pending.borrow_mut().push((Box::new(callback), 4));
        Ok(())
    }

    fn write_nonblocking<F: FnOnce(UsbResult<usize>) + Send + 'static>(
        &self,
        _device: &FixtureDevice,
        _endpoint: u8,
        data: WriteBuffer,
        callback: F,
        _timeout: Option<Duration>,
    ) -> UsbResult<()> {
        self.transfers.set(self.transfers.get() + 1);
        let length = data.len();
        self.pending.borrow_mut().push((Box::new(callback), length));
        Ok(())
    }
}

fn host() -> (Rc<Fixture>, Host<Fixture>) {
    let backend = Rc::new(Fixture::new());
    let host = Host::new_from_backend(Rc::clone(&backend)).unwrap();
    (backend, host)
}

#[test]
fn end_to_end_descriptor_read() {
    let (_backend, mut host) = host();
    let selector = DeviceSelector { vendor_id: Some(0x1d50), product_id: Some(0x615c), serial: None };
    let found = host.devices(&selector).unwrap();
    assert_eq!(found.len(), 1);
    assert_eq!(found[0].serial.as_deref(), Some("LUNA"));
    let mut device = host.open(&found[0]).unwrap();
    let mut buffer = [0u8; 18];
    let length = device
        .control_read(
            standard_in_from_device(),
            StandardDeviceRequest::GetDescriptor.into(),
            (1 << 8) | 0,
            0,
            &mut buffer,
            None,
        )
        .unwrap();
    assert_eq!(length, 18);
    assert_eq!(buffer[0], 18);
    assert_eq!(buffer[1], 1);
    let descriptor = device.read_standard_descriptor(DescriptorType::Device, 0).unwrap();
    assert_eq!(descriptor, DEVICE_DESCRIPTOR.to_vec());
}

#[test]
fn first_matching_device_and_all_devices() {
    let (_backend, mut host) = host();
    let vendor = DeviceSelector { vendor_id: Some(0x1d50), product_id: None, serial: None };
    assert_eq!(host.device(&vendor).unwrap().product_id, 0x6089);
    assert_eq!(host.devices(&vendor).unwrap().len(), 2);
    assert_eq!(host.all_devices().unwrap().len(), 4);
    let absent = DeviceSelector { vendor_id: Some(0x0001), product_id: None, serial: None };
    assert_eq!(host.device(&absent).unwrap_err(), Error::DeviceNotFound);
    assert!(host.devices(&absent).unwrap().is_empty());
}

#[test]
fn filtering_keeps_order_and_stops_at_first_when_asked() {
    let all = vec![
        DeviceInformation::new(1, 1, None, None, None),
        DeviceInformation::new(2, 1, None, None, None),
        DeviceInformation::new(1, 2, None, None, None),
    ];
    let selector = DeviceSelector { vendor_id: Some(1), product_id: None, serial: None };
    let kept = filter_devices(all.clone(), &selector, false);
    assert_eq!(kept.iter().map(|d| d.product_id).collect::<Vec<_>>(), vec![1, 2]);
    let first = filter_devices(all.clone(), &selector, true);
    assert_eq!(first.len(), 1);
    assert_eq!(first[0].product_id, 1);
    assert!(filter_devices(Vec::new(), &selector, true).is_empty());
    assert_eq!(first_device(Vec::new()).unwrap_err(), Error::DeviceNotFound);
    assert_eq!(first_device(all).unwrap().vendor_id, 1);
}

#[test]
fn opening_an_unknown_locator_is_not_found() {
    let (_backend, mut host) = host();
    let made_up = DeviceInformation::new(0x1d50, 0x615c, None, None, None);
    assert_eq!(host.open(&made_up).err(), Some(Error::DeviceNotFound));
}

#[test]
fn oversized_control_transfers_fail_before_the_backend() {
    let (backend, mut host) = host();
    let info = host.device(&DeviceSelector::any()).unwrap();
    let mut device = host.open(&info).unwrap();
    let mut huge = vec![0u8; 65536];
    let read = device.control_read(standard_in_from_device(), 6, 0x0100, 0, &mut huge, None);
    assert_eq!(read, Err(Error::Overrun));
    let write = device.control_write(standard_in_from_device(), 6, 0, 0, &huge, None);
    assert_eq!(write, Err(Error::Overrun));
    let called = Arc::new(AtomicBool::new(false));
    let flag = Arc::clone(&called);
    let submitted = device.control_read_and_call_back(
        standard_in_from_device(),
        6,
        0x0100,
        0,
        create_read_buffer(65536),
        move |_| flag.store(true, Ordering::SeqCst),
        None,
    );
    assert_eq!(submitted, Err(Error::Overrun));
    let written = device.control_write_async(standard_in_from_device(), 6, 0, 0, Arc::new(huge.clone()), None);
    assert_eq!(written.err(), Some(Error::Overrun));
    assert_eq!(backend.transfers.get(), 0);
    assert!(!called.load(Ordering::SeqCst));
    let mut largest = vec![0u8; 65535];
    assert_eq!(device.control_read(standard_in_from_device(), 6, 0x0200, 0, &mut largest, None), Err(Error::Stalled));
    assert_eq!(backend.transfers.get(), 1);
}

#[test]
fn read_to_vec_truncates_to_length_read() {
    let (_backend, mut host) = host();
    let info = host.device(&DeviceSelector::any()).unwrap();
    let mut device = host.open(&info).unwrap();
    assert_eq!(device.read_to_vec(1, 64, None).unwrap(), vec![10, 11, 12, 13]);
    assert_eq!(device.read_to_vec(1, 2, Some(Duration::from_millis(5))).unwrap(), vec![10, 11]);
    assert_eq!(device.read_to_vec(2, 64, None).unwrap_err(), Error::InvalidEndpoint);
    assert_eq!(device.control_read_to_vec(standard_in_from_device(), 6, 0x0300, 0, 255, None).unwrap_err(), Error::Stalled);
}

#[test]
fn kernel_driver_release_is_optional() {
    let (_backend, mut host) = host();
    let info = host.device(&DeviceSelector::any()).unwrap();
    let mut device = host.open(&info).unwrap();
    assert_eq!(device.release_kernel_driver(0), Err(Error::Unsupported));
    assert_eq!(device.release_kernel_driver_if_possible(0), Ok(()));
    assert_eq!(device.claim_interface(0), Ok(()));
    assert_eq!(device.claim_interface(3), Err(Error::InvalidArgument));
    assert_eq!(device.unclaim_interface(0), Ok(()));
    assert_eq!(device.write(1, &[1, 2, 3], None), Ok(()));
}

struct Signal(Mutex<Sender<()>>);

impl Wake for Signal {
    fn wake(self: Arc<Self>) {
        let _ = self.0.lock().unwrap().send(());
    }
}

#[test]
fn callback_runs_once_after_submission_returns() {
    let (backend, mut host) = host();
    let info = host.device(&DeviceSelector::any()).unwrap();
    let mut device = host.open(&info).unwrap();
    let results = Arc::new(Mutex::new(Vec::new()));
    let seen = Arc::clone(&results);
    device
        .write_and_call_back(2, Arc::new(vec![1, 2, 3]), move |result| seen.lock().unwrap().push(result), None)
        .unwrap();
    assert!(results.lock().unwrap().is_empty());
    assert_eq!(backend.deliver(), 1);
    assert_eq!(*results.lock().unwrap(), vec![Ok(3)]);
    assert_eq!(backend.deliver(), 0);
    assert_eq!(*results.lock().unwrap(), vec![Ok(3)]);
}

#[test]
fn future_completes_through_its_waker() {
    let (backend, mut host) = host();
    let info = host.device(&DeviceSelector::any()).unwrap();
    let mut device = host.open(&info).unwrap();
    let future = device.write_async(2, Arc::new(vec![9; 5]), None).unwrap();
    let (sender, receiver) = channel();
    let waker = Waker::from(Arc::new(Signal(Mutex::new(sender))));
    assert!(matches!(future.poll_with(waker.clone()), PollState::Pending));
    assert!(receiver.try_recv().is_err());
    assert_eq!(backend.deliver(), 1);
    receiver.recv_timeout(Duration::from_secs(5)).unwrap();
    assert!(matches!(future.poll_with(waker.clone()), PollState::Ready(Ok(5))));
    assert!(matches!(future.poll_with(waker), PollState::Consumed));
}

#[test]
fn descriptor_future_reports_submission() {
    let (backend, mut host) = host();
    let info = host.device(&DeviceSelector::any()).unwrap();
    let mut device = host.open(&info).unwrap();
    let future = device.read_standard_descriptor_async(DescriptorType::Device, 0, create_read_buffer(18)).unwrap();
    let read = device.read_async(1, create_read_buffer(4), None).unwrap();
    assert_eq!(backend.deliver(), 2);
    let (sender, _receiver) = channel();
    let waker = Waker::from(Arc::new(Signal(Mutex::new(sender))));
    assert!(matches!(future.poll_with(waker.clone()), PollState::Ready(Ok(0))));
    assert!(matches!(read.poll_with(waker), PollState::Ready(Ok(4))));
}

#[test]
fn read_results_keep_exactly_the_bytes_read() {
    assert_eq!(truncate_to_read(vec![1, 2, 3, 4], Ok(2)), Ok(vec![1, 2]));
    assert_eq!(truncate_to_read(vec![1, 2], Ok(0)), Ok(vec![]));
    assert_eq!(truncate_to_read(vec![1, 2], Ok(5)), Ok(vec![1, 2]));
    assert_eq!(truncate_to_read(vec![1, 2], Err(Error::TimedOut)), Err(Error::TimedOut));
}

#[test]
fn refused_submissions_return_their_error() {
    assert_eq!(future_after_submission(UsbFuture::new(), Err(Error::InvalidEndpoint)).err(), Some(Error::InvalidEndpoint));
    assert!(future_after_submission(UsbFuture::new(), Ok(())).is_ok());
    let (_backend, mut host) = host();
    let info = host.device(&DeviceSelector::any()).unwrap();
    let mut device = host.open(&info).unwrap();
    let huge = Arc::new(vec![0u8; 65536]);
    assert_eq!(device.control_write_async(standard_in_from_device(), 9, 0, 0, huge, None).err(), Some(Error::Overrun));
}
